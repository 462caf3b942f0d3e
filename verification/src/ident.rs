use vstd::prelude::*;
use vstd::string::StringExecFns;

verus! {

/// An opaque entity identifier: the 128-bit value of a UUID.
///
/// The all-zero value is the nil sentinel. It marks a missing or malformed
/// identifier rather than a valid reference, and every gateway operation
/// that takes an identifier rejects it.
#[derive(Clone, Copy, PartialEq, Eq, Structural, Debug, Hash)]
pub struct EntityId {
    pub value: u128,
}

/// The hexadecimal digit character for `d` (meaningful for `0 <= d < 16`).
pub open spec fn hex_char(d: int) -> char {
    if d == 0 {
        '0'
    } else if d == 1 {
        '1'
    } else if d == 2 {
        '2'
    } else if d == 3 {
        '3'
    } else if d == 4 {
        '4'
    } else if d == 5 {
        '5'
    } else if d == 6 {
        '6'
    } else if d == 7 {
        '7'
    } else if d == 8 {
        '8'
    } else if d == 9 {
        '9'
    } else if d == 10 {
        'a'
    } else if d == 11 {
        'b'
    } else if d == 12 {
        'c'
    } else if d == 13 {
        'd'
    } else if d == 14 {
        'e'
    } else {
        'f'
    }
}

/// The lowest `n` hexadecimal digits of `v`, most significant first.
pub open spec fn hex_digits(v: int, n: nat) -> Seq<char>
    decreases n,
{
    if n == 0 {
        Seq::empty()
    } else {
        hex_digits(v / 16, (n - 1) as nat).push(hex_char(v % 16))
    }
}

/// The canonical lower-case hyphenated text of a 128-bit identifier:
/// 32 hexadecimal digits in groups of 8, 4, 4, 4 and 12.
pub open spec fn uuid_text(v: u128) -> Seq<char> {
    hex_digits(v as int / 0x1000000000000000000000000, 8) + seq!['-'] + hex_digits(
        v as int / 0x100000000000000000000,
        4,
    ) + seq!['-'] + hex_digits(v as int / 0x10000000000000000, 4) + seq!['-'] + hex_digits(
        v as int / 0x1000000000000,
        4,
    ) + seq!['-'] + hex_digits(v as int % 0x1000000000000, 12)
}

/// What `uuid::Uuid::parse_str` makes of a string: the parsed 128-bit value,
/// or nothing where the string is not a well-formed UUID. The outcome depends
/// on the characters alone.
pub uninterp spec fn parsed_id(s: Seq<char>) -> Option<u128>;

/// The identifier a path segment is coerced to: the parsed value, or nil
/// where the segment is not a well-formed UUID.
pub open spec fn coerced_id(s: Seq<char>) -> EntityId {
    match parsed_id(s) {
        Some(v) => EntityId { value: v },
        None => EntityId { value: 0 },
    }
}

/// Relies on `uuid::Uuid::parse_str` (and `Uuid::as_u128`): parsing accepts
/// the hexadecimal UUID formats and yields the 128-bit value; the outcome is
/// a function of the characters alone, named by `parsed_id`.
#[verifier::external_body]
fn parse_uuid_value(s: &str) -> (r: Option<u128>)
    ensures
        r == parsed_id(s@),
{
    match uuid::Uuid::parse_str(s) {
        Ok(u) => Some(u.as_u128()),
        Err(_) => None,
    }
}

/// Relies on `uuid::Uuid::new_v4` (and `Uuid::as_u128`): the generated value
/// always carries the version-4 and variant bits (it is bitwise-or'd with
/// 0x4000_8000_0000_0000_0000), so it is never the all-zero nil value.
/// Nothing else is promised: the rest of the value is random.
#[verifier::external_body]
fn random_uuid_value() -> (r: u128)
    ensures
        r != 0,
{
    uuid::Uuid::new_v4().as_u128()
}

fn hex_char_str(d: u8) -> (r: &'static str)
    requires
        d < 16,
    ensures
        r@ == seq![hex_char(d as int)],
{
    let r: &'static str = match d {
        0 => "0",
        1 => "1",
        2 => "2",
        3 => "3",
        4 => "4",
        5 => "5",
        6 => "6",
        7 => "7",
        8 => "8",
        9 => "9",
        10 => "a",
        11 => "b",
        12 => "c",
        13 => "d",
        14 => "e",
        _ => "f",
    };
    proof {
        reveal_strlit("0");
        reveal_strlit("1");
        reveal_strlit("2");
        reveal_strlit("3");
        reveal_strlit("4");
        reveal_strlit("5");
        reveal_strlit("6");
        reveal_strlit("7");
        reveal_strlit("8");
        reveal_strlit("9");
        reveal_strlit("a");
        reveal_strlit("b");
        reveal_strlit("c");
        reveal_strlit("d");
        reveal_strlit("e");
        reveal_strlit("f");
        assert(r@ =~= seq![hex_char(d as int)]);
    }
    r
}

fn push_hex_digits(out: &mut String, v: u128, n: usize)
    ensures
        final(out)@ == old(out)@ + hex_digits(v as int, n as nat),
    decreases n,
{
    if n == 0 {
        proof {
            assert(out@ =~= old(out)@ + hex_digits(v as int, 0));
        }
    } else {
        push_hex_digits(out, v / 16, n - 1);
        out.append(hex_char_str((v % 16) as u8));
        proof {
            assert(out@ =~= old(out)@ + hex_digits(v as int, n as nat));
        }
    }
}

impl EntityId {
    pub open spec fn spec_is_nil(self) -> bool {
        self.value == 0
    }

    /// Whether this is the nil (all-zero) identifier.
    #[verifier::when_used_as_spec(spec_is_nil)]
    pub fn is_nil(self) -> (r: bool)
        ensures
            r == self.spec_is_nil(),
    {
        self.value == 0
    }

    /// The nil identifier.
    pub fn nil() -> (r: Self)
        ensures
            r.spec_is_nil(),
    {
        EntityId { value: 0 }
    }

    pub fn from_value(value: u128) -> (r: Self)
        ensures
            r.value == value,
    {
        EntityId { value }
    }

    /// A freshly generated random identifier; never nil.
    pub fn generate() -> (r: Self)
        ensures
            !r.spec_is_nil(),
    {
        EntityId { value: random_uuid_value() }
    }

    /// The identifier a path segment names, with a deliberate coercion:
    /// a string that is not a well-formed UUID becomes the nil identifier,
    /// so that it surfaces downstream as the gateway's identifier-validation
    /// error rather than as a distinct parse error.
    pub fn parse_or_nil(s: &str) -> (r: Self)
        ensures
            r == coerced_id(s@),
            parsed_id(s@) matches None ==> r.spec_is_nil(),
    {
        match parse_uuid_value(s) {
            Some(v) => EntityId { value: v },
            None => EntityId { value: 0 },
        }
    }

    /// The canonical hyphenated text of this identifier.
    pub fn to_uuid_string(self) -> (r: String)
        ensures
            r@ == uuid_text(self.value),
    {
        let mut out = String::new();
        push_hex_digits(&mut out, self.value / 0x1000000000000000000000000u128, 8);
        out.append("-");
        push_hex_digits(&mut out, self.value / 0x100000000000000000000u128, 4);
        out.append("-");
        push_hex_digits(&mut out, self.value / 0x10000000000000000u128, 4);
        out.append("-");
        push_hex_digits(&mut out, self.value / 0x1000000000000u128, 4);
        out.append("-");
        push_hex_digits(&mut out, self.value % 0x1000000000000u128, 12);
        proof {
            reveal_strlit("-");
            assert(out@ =~= uuid_text(self.value));
        }
        out
    }
}

} // verus!
