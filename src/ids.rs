use vstd::prelude::*;

verus! {

/// A unique identifier (a UUID), held as its 128-bit value.
#[derive(Clone, Copy, Debug, PartialEq, Eq, Structural, Hash)]
pub struct Uuid(pub u128);

/// Lower-case hexadecimal digit of a value below 16.
pub open spec fn hex_digit(n: u128) -> char {
    seq!['0', '1', '2', '3', '4', '5', '6', '7', '8', '9', 'a', 'b', 'c', 'd', 'e', 'f'][n as int]
}

/// The `k`-th hexadecimal digit of `v`, counting from the most significant.
pub open spec fn nibble(v: u128, k: int) -> u128 {
    (v >> ((124 - 4 * k) as u128)) & 0xf
}

/// Position among the 32 digits of the character at `i` of the hyphenated form.
pub open spec fn digit_index(i: int) -> int {
    if i < 8 {
        i
    } else if i < 13 {
        i - 1
    } else if i < 18 {
        i - 2
    } else if i < 23 {
        i - 3
    } else {
        i - 4
    }
}

/// The hyphenated form `xxxxxxxx-xxxx-xxxx-xxxx-xxxxxxxxxxxx` of `v`, in
/// lower-case hexadecimal, most significant digit first.
pub open spec fn hyphenated_of(v: u128) -> Seq<char> {
    Seq::new(
        36,
        |i: int|
            if i == 8 || i == 13 || i == 18 || i == 23 {
                '-'
            } else {
                hex_digit(nibble(v, digit_index(i)))
            },
    )
}

/// The value a version 4 generator may produce: version nibble 4 and the
/// RFC 4122 variant bits `10`.
pub open spec fn v4_shaped(v: u128) -> bool {
    &&& (v >> 76u128) & 0xfu128 == 4
    &&& (v >> 62u128) & 3u128 == 2
}

/// What the UUID parser makes of a string: the value, or `None` where it
/// refuses the string.
pub uninterp spec fn uuid_parsed(s: Seq<char>) -> Option<u128>;

/// The UUID parser's error (uuid::Error), carried without looking inside.
#[verifier::external_type_specification]
#[verifier::external_body]
pub struct ExUuidError(::uuid::Error);

/// Relies on uuid::Uuid::new_v4 (with as_u128): a random value with the
/// version and variant bits of a version 4 UUID set.
#[verifier::external_body]
fn random_v4() -> (r: u128)
    ensures
        v4_shaped(r),
{
    ::uuid::Uuid::new_v4().as_u128()
}

/// Relies on uuid::Uuid::try_parse (with as_u128): the parsed value. The
/// parser accepts the lower-case hyphenated form that the formatter writes.
#[verifier::external_body]
fn try_parse_uuid(s: &str) -> (r: Result<u128, ::uuid::Error>)
    ensures
        r is Ok <==> uuid_parsed(s@) is Some,
        r is Ok ==> uuid_parsed(s@) == Some(r->Ok_0),
        forall|v: u128| #[trigger] hyphenated_of(v) == s@ ==> r is Ok && r->Ok_0 == v,
{
    ::uuid::Uuid::try_parse(s).map(|u| u.as_u128())
}

/// Relies on uuid::Uuid::as_hyphenated and its Display: the hyphenated
/// lower-case form.
#[verifier::external_body]
fn format_hyphenated(v: u128) -> (r: String)
    ensures
        r@ == hyphenated_of(v),
{
    ::uuid::Uuid::from_u128(v).as_hyphenated().to_string()
}

impl Uuid {
    /// A new random identifier (version 4).
    pub fn random() -> (r: Uuid)
        ensures
            v4_shaped(r.0),
    {
        Uuid(random_v4())
    }

    /// The identifier with the value `u`.
    pub fn from_u128(u: u128) -> (r: Uuid)
        ensures
            r.0 == u,
    {
        Uuid(u)
    }

    /// The 128-bit value.
    pub fn as_u128(&self) -> (r: u128)
        ensures
            r == self.0,
    {
        self.0
    }

    /// Parses an identifier; any form the UUID parser accepts is taken.
    pub fn from_str(s: &str) -> (r: Result<Uuid, &'static str>)
        ensures
            r is Ok <==> uuid_parsed(s@) is Some,
            r is Ok ==> uuid_parsed(s@) == Some(r->Ok_0.0),
            r is Err ==> r->Err_0@ == "Invalid UUID"@,
            forall|v: u128| #[trigger] hyphenated_of(v) == s@ ==> r is Ok && r->Ok_0.0 == v,
    {
        match try_parse_uuid(s) {
            Ok(v) => Ok(Uuid(v)),
            Err(_) => Err("Invalid UUID"),
        }
    }

    /// The hyphenated lower-case text of the identifier.
    pub fn to_string(&self) -> (r: String)
        ensures
            r@ == hyphenated_of(self.0),
    {
        format_hyphenated(self.0)
    }
}

} // verus!
