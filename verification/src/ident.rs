//! Identifiers and points in time, with their texts.
use vstd::prelude::*;

verus! {

/// The hexadecimal digit of `n`, which is below 16, in lower case.
pub open spec fn hex_digit(n: nat) -> char {
    if n < 10 {
        ('0' as int + n) as char
    } else {
        ('a' as int + n - 10) as char
    }
}

/// The last `width` hexadecimal digits of `n`, the highest first.
pub open spec fn hex(n: nat, width: nat) -> Seq<char>
    decreases width,
{
    if width == 0 {
        Seq::empty()
    } else {
        hex(n / 16, (width - 1) as nat).push(hex_digit(n % 16))
    }
}

/// The hyphenated text of the identifier with the 128-bit value `v`: its hexadecimal digits in
/// groups of eight, four, four, four and twelve.
pub open spec fn uuid_text(v: u128) -> Seq<char> {
    let digits = hex(v as nat, 32);
    digits.subrange(0, 8) + seq!['-'] + digits.subrange(8, 12) + seq!['-'] + digits.subrange(
        12,
        16,
    ) + seq!['-'] + digits.subrange(16, 20) + seq!['-'] + digits.subrange(20, 32)
}

/// The value of the identifier that a text denotes, if it denotes one.
pub uninterp spec fn parsed_uuid(t: Seq<char>) -> Option<u128>;

/// `uuid::Uuid::parse_str`: the 128-bit value of the identifier, none where the text is
/// refused. Which texts are accepted is left to the crate.
#[verifier::external_body]
fn uuid_parse_str(t: &str) -> (r: Option<u128>)
    ensures
        r == parsed_uuid(t@),
{
    uuid::Uuid::parse_str(t).ok().map(|u| u.as_u128())
}

/// `uuid::Uuid`'s `Display`: the hyphenated text in lower case, which `uuid::Uuid::parse_str`
/// reads back as the same value.
#[verifier::external_body]
fn uuid_display(v: u128) -> (r: String)
    ensures
        r@ == uuid_text(v),
        parsed_uuid(r@) == Some(v),
{
    uuid::Uuid::from_u128(v).to_string()
}

/// The identifier of a stored record.
#[derive(Debug, Clone, Copy, PartialEq, Eq, Structural)]
pub struct Uuid {
    pub value: u128,
}

impl Uuid {
    /// The hyphenated text of the identifier.
    pub open spec fn text(self) -> Seq<char> {
        uuid_text(self.value)
    }

    pub fn to_text(&self) -> (r: String)
        ensures
            r@ == self.text(),
            parsed_uuid(r@) == Some(self.value),
    {
        uuid_display(self.value)
    }

    /// The identifier that `t` denotes, if it denotes one.
    pub open spec fn denoted(t: Seq<char>) -> Option<Uuid> {
        match parsed_uuid(t) {
            Some(value) => Some(Uuid { value }),
            None => None,
        }
    }

    /// The identifier that `t` denotes, if it denotes one.
    pub fn parse(t: &str) -> (r: Option<Uuid>)
        ensures
            r == Uuid::denoted(t@),
    {
        match uuid_parse_str(t) {
            Some(value) => Some(Uuid { value }),
            None => None,
        }
    }
}

/// The seconds and nanoseconds that denote a point in time: years -262143 to 262142, with
/// nanoseconds past a second only in the last second of a minute.
pub open spec fn in_time_range(secs: int, nanos: int) -> bool {
    &&& -8334601228800 <= secs <= 8210266876799
    &&& 0 <= nanos
    &&& nanos < 1_000_000_000 || (nanos < 2_000_000_000 && secs % 60 == 59)
}

/// The RFC 3339 text of the point in time `secs` seconds and `nanos` nanoseconds after the
/// Unix epoch, in UTC.
pub uninterp spec fn rfc3339_text(secs: i64, nanos: u32) -> Seq<char>;

/// `chrono::DateTime::<Utc>::to_rfc3339`, on the point in time that
/// `chrono::DateTime::from_timestamp` makes of the arguments, which lie in its range.
#[verifier::external_body]
fn chrono_rfc3339(secs: i64, nanos: u32) -> (r: String)
    requires
        in_time_range(secs as int, nanos as int),
    ensures
        r@ == rfc3339_text(secs, nanos),
{
    chrono::DateTime::from_timestamp(secs, nanos).unwrap().to_rfc3339()
}

/// A point in time, in UTC.
#[derive(Debug, Clone, Copy, PartialEq, Eq, Structural)]
pub struct Timestamp {
    secs: i64,
    nanos: u32,
}

impl Timestamp {
    #[verifier::type_invariant]
    spec fn in_range(self) -> bool {
        in_time_range(self.secs as int, self.nanos as int)
    }

    pub closed spec fn seconds(self) -> i64 {
        self.secs
    }

    pub closed spec fn nanoseconds(self) -> u32 {
        self.nanos
    }

    /// The RFC 3339 text of the point in time.
    pub open spec fn text(self) -> Seq<char> {
        rfc3339_text(self.seconds(), self.nanoseconds())
    }

    /// The point in time `secs` seconds and `nanos` nanoseconds after the Unix epoch.
    pub fn new(secs: i64, nanos: u32) -> (r: Option<Timestamp>)
        ensures
            r is Some <==> in_time_range(secs as int, nanos as int),
            r matches Some(t) ==> t.seconds() == secs && t.nanoseconds() == nanos,
    {
        if secs < -8334601228800 || secs > 8210266876799 {
            return None;
        }
        let shifted: i64 = secs + 8334601228800;
        assert(shifted % 60 == secs % 60);
        if nanos < 1_000_000_000 || (nanos < 2_000_000_000 && shifted % 60 == 59) {
            Some(Timestamp { secs, nanos })
        } else {
            None
        }
    }

    pub fn get_secs(&self) -> (r: i64)
        ensures
            r == self.seconds(),
    {
        self.secs
    }

    pub fn get_nanos(&self) -> (r: u32)
        ensures
            r == self.nanoseconds(),
    {
        self.nanos
    }

    pub fn to_rfc3339(&self) -> (r: String)
        ensures
            r@ == self.text(),
    {
        proof {
            use_type_invariant(self);
        }
        chrono_rfc3339(self.secs, self.nanos)
    }
}

} // verus!
