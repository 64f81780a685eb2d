//! Identifiers of products, orders and audit log entries: UUID values held
//! as their 128-bit number.

use vstd::prelude::*;

verus! {

/// The character of a hexadecimal digit, lowercase.
pub open spec fn hex_char(d: nat) -> char
    recommends
        d < 16,
{
    if d < 10 {
        ('0' as int + d) as char
    } else {
        ('a' as int + (d - 10)) as char
    }
}

/// The last `count` hexadecimal digits of `v`, most significant first,
/// padded with zeros.
pub open spec fn hex_digits(v: nat, count: nat) -> Seq<char>
    decreases count,
{
    if count == 0 {
        Seq::empty()
    } else {
        hex_digits(v / 16, (count - 1) as nat) + seq![hex_char(v % 16)]
    }
}

/// The hyphenated lowercase text of a UUID: its 32 hexadecimal digits in
/// groups of 8, 4, 4, 4 and 12, joined by `-`.
pub open spec fn uuid_text(v: u128) -> Seq<char> {
    let h = hex_digits(v as nat, 32);
    h.subrange(0, 8) + seq!['-'] + h.subrange(8, 12) + seq!['-'] + h.subrange(12, 16) + seq!['-']
        + h.subrange(16, 20) + seq!['-'] + h.subrange(20, 32)
}

/// Whether `v` carries the version and variant bits of a random (version 4,
/// RFC 9562 variant) UUID.
pub open spec fn is_random_uuid(v: u128) -> bool {
    &&& (v >> 76u128) & 0xfu128 == 4
    &&& (v >> 62u128) & 0x3u128 == 2
}

/// Calls `uuid::Uuid::new_v4` and gives the value of the UUID it drew. The
/// source masks a random number and sets the version nibble to 4 and the
/// variant bits to `10`; that is all that is stated, the rest is chance.
#[verifier::external_body]
fn draw_random_uuid() -> (v: u128)
    ensures
        is_random_uuid(v),
{
    uuid::Uuid::new_v4().as_u128()
}

/// Formats a UUID value with `uuid::Uuid::from_u128` and its `Display`,
/// which writes the lowercase hyphenated form.
#[verifier::external_body]
fn format_uuid(v: u128) -> (s: String)
    ensures
        s@ == uuid_text(v),
{
    uuid::Uuid::from_u128(v).to_string()
}

/// Identifier of a product.
#[derive(Clone, Copy, Debug, PartialEq, Eq, Structural, Hash)]
pub struct ProductId(pub u128);

/// Identifier of an order.
#[derive(Clone, Copy, Debug, PartialEq, Eq, Structural, Hash)]
pub struct OrderId(pub u128);

/// Identifier of an audit log entry.
#[derive(Clone, Copy, Debug, PartialEq, Eq, Structural, Hash)]
pub struct AuditLogId(pub u128);

impl ProductId {
    /// A fresh random identifier.
    pub fn new() -> (id: ProductId)
        ensures
            is_random_uuid(id.0),
    {
        ProductId(draw_random_uuid())
    }

    /// The identifier's text, as its `Display` writes it.
    pub fn to_text(&self) -> (s: String)
        ensures
            s@ == uuid_text(self.0),
    {
        format_uuid(self.0)
    }
}

impl OrderId {
    /// A fresh random identifier.
    pub fn new() -> (id: OrderId)
        ensures
            is_random_uuid(id.0),
    {
        OrderId(draw_random_uuid())
    }

    /// The identifier's text, as its `Display` writes it.
    pub fn to_text(&self) -> (s: String)
        ensures
            s@ == uuid_text(self.0),
    {
        format_uuid(self.0)
    }
}

impl AuditLogId {
    /// A fresh random identifier.
    pub fn new() -> (id: AuditLogId)
        ensures
            is_random_uuid(id.0),
    {
        AuditLogId(draw_random_uuid())
    }
}

} // verus!
