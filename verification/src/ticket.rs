//! Session tickets: `<product>:<userid>:<timestamp>::<signature>`.
//!
//! A ticket is an opaque signed token. This module only takes it apart: the
//! product tag and the user id are non-empty and free of `:`, the timestamp is a
//! hexadecimal number of seconds that fits a signed 64-bit integer, and whatever
//! follows the `::` is the signature, which is kept but never interpreted.

use vstd::prelude::*;
use vstd::string::*;
use crate::text::{chars_of, find_char, find_from, lemma_find_from, lemma_find_from_is};

verus! {

/// Why a token was not accepted as a ticket.
#[derive(Clone, Copy, Debug, PartialEq, Eq, Structural)]
pub enum TicketError {
    /// The token lacks the delimiters that separate the four fields.
    Invalid,
    /// The fields are delimited, but one of them is not well-formed.
    Malformed,
}

impl TicketError {
    /// What the error says.
    pub open spec fn text(self) -> Seq<char> {
        match self {
            TicketError::Invalid => "invalid ticket"@,
            TicketError::Malformed => "malformed ticket"@,
        }
    }

    /// What the error says.
    pub fn message(&self) -> (r: String)
        ensures
            r@ == self.text(),
    {
        match self {
            TicketError::Invalid => "invalid ticket".to_owned(),
            TicketError::Malformed => "malformed ticket".to_owned(),
        }
    }
}

/// What a ticket is, mathematically: the token and the fields it decomposes into.
pub struct TicketView {
    pub raw: Seq<char>,
    pub product: Seq<char>,
    pub userid: Seq<char>,
    pub timestamp: int,
    pub signature: Seq<char>,
}

pub open spec fn is_hex_digit(c: char) -> bool {
    let n = c as u32;
    (0x30 <= n <= 0x39) || (0x41 <= n <= 0x46) || (0x61 <= n <= 0x66)
}

/// The value of a hexadecimal digit; 0 for any other character.
pub open spec fn hex_digit_value(c: char) -> int {
    let n = c as u32;
    if 0x30 <= n <= 0x39 {
        n - 0x30
    } else if 0x41 <= n <= 0x46 {
        n - 0x41 + 10
    } else if 0x61 <= n <= 0x66 {
        n - 0x61 + 10
    } else {
        0
    }
}

/// The number that the digits `s` denote in base 16, most significant digit first.
pub open spec fn hex_value(s: Seq<char>) -> int
    decreases s.len(),
{
    if s.len() == 0 {
        0
    } else {
        hex_value(s.drop_last()) * 16 + hex_digit_value(s.last())
    }
}

pub open spec fn all_hex(s: Seq<char>) -> bool {
    forall|i: int| 0 <= i < s.len() ==> is_hex_digit(#[trigger] s[i])
}

/// A well-formed timestamp field: one or more hexadecimal digits whose value
/// fits an `i64`.
pub open spec fn is_timestamp(s: Seq<char>) -> bool {
    &&& s.len() >= 1
    &&& all_hex(s)
    &&& hex_value(s) <= i64::MAX
}

/// The grammar: what a token decomposes into, or why it does not.
pub open spec fn parse_ticket(s: Seq<char>) -> Result<TicketView, TicketError> {
    let c1 = find_from(s, ':', 0);
    let c2 = find_from(s, ':', c1 + 1);
    let c3 = find_from(s, ':', c2 + 1);
    if c3 + 1 >= s.len() || s[c3 + 1] != ':' {
        Err(TicketError::Invalid)
    } else {
        let product = s.subrange(0, c1);
        let userid = s.subrange(c1 + 1, c2);
        let stamp = s.subrange(c2 + 1, c3);
        if product.len() == 0 || userid.len() == 0 || !is_timestamp(stamp) {
            Err(TicketError::Malformed)
        } else {
            Ok(
                TicketView {
                    raw: s,
                    product,
                    userid,
                    timestamp: hex_value(stamp),
                    signature: s.subrange(c3 + 2, s.len() as int),
                },
            )
        }
    }
}

/// The token that four fields make up.
pub open spec fn compose_ticket(
    product: Seq<char>,
    userid: Seq<char>,
    stamp: Seq<char>,
    signature: Seq<char>,
) -> Seq<char> {
    product + seq![':'] + userid + seq![':'] + stamp + seq![':', ':'] + signature
}

/// The value of a prefix of a digit string never exceeds the value of the whole.
proof fn lemma_hex_value_prefix(s: Seq<char>, k: int)
    requires
        0 <= k <= s.len(),
    ensures
        0 <= hex_value(s.take(k)) <= hex_value(s),
    decreases s.len() - k,
{
    if k == s.len() {
        assert(s.take(k) =~= s);
        lemma_hex_value_nonneg(s);
    } else {
        lemma_hex_value_prefix(s.drop_last(), k);
        assert(s.drop_last().take(k) =~= s.take(k));
    }
}

proof fn lemma_hex_value_nonneg(s: Seq<char>)
    ensures
        0 <= hex_value(s),
    decreases s.len(),
{
    if s.len() > 0 {
        lemma_hex_value_nonneg(s.drop_last());
    }
}

/// Reads the field `v[from..to]` as a timestamp.
fn parse_stamp(v: &Vec<char>, from: usize, to: usize) -> (r: Option<i64>)
    requires
        from <= to <= v.len(),
    ensures
        r is Some <==> is_timestamp(v@.subrange(from as int, to as int)),
        r matches Some(t) ==> t == hex_value(v@.subrange(from as int, to as int)),
{
    let ghost field = v@.subrange(from as int, to as int);
    if from == to {
        return None;
    }
    let mut acc: i64 = 0;
    let mut i: usize = from;
    while i < to
        invariant
            from <= i <= to <= v.len(),
            field == v@.subrange(from as int, to as int),
            all_hex(field.take(i - from)),
            acc == hex_value(field.take(i - from)),
            0 <= acc,
        decreases to - i,
    {
        let n: u32 = v[i] as u32;
        let d: i64 = if 0x30 <= n && n <= 0x39 {
            (n - 0x30) as i64
        } else if 0x41 <= n && n <= 0x46 {
            (n - 0x41 + 10) as i64
        } else if 0x61 <= n && n <= 0x66 {
            (n - 0x61 + 10) as i64
        } else {
            assert(!is_hex_digit(field[i - from]));
            return None;
        };
        let ghost next = field.take(i - from + 1);
        assert(next.drop_last() =~= field.take(i - from));
        assert(next.last() == v@[i as int]);
        assert(hex_value(next) == acc * 16 + d);
        if acc > (i64::MAX - d) / 16 {
            proof {
                lemma_hex_value_prefix(field, i - from + 1);
            }
            return None;
        }
        acc = acc * 16 + d;
        assert forall|j: int| 0 <= j < next.len() implies is_hex_digit(#[trigger] next[j]) by {
            if j < i - from {
                assert(next[j] == field.take(i - from)[j]);
            }
        }
        i += 1;
    }
    assert(field.take(to - from) =~= field);
    Some(acc)
}

/// A parsed ticket. It keeps the token as it was received.
#[derive(Debug, PartialEq, Eq)]
pub struct Ticket {
    data: String,
    product: String,
    userid: String,
    timestamp: i64,
}

impl View for Ticket {
    type V = TicketView;

    closed spec fn view(&self) -> TicketView {
        TicketView {
            raw: self.data@,
            product: self.product@,
            userid: self.userid@,
            timestamp: self.timestamp as int,
            signature: self.data@.subrange(
                find_from(
                    self.data@,
                    ':',
                    find_from(self.data@, ':', find_from(self.data@, ':', 0) + 1) + 1,
                ) + 2,
                self.data@.len() as int,
            ),
        }
    }
}

impl Clone for Ticket {
    fn clone(&self) -> (r: Self)
        ensures
            r@ == self@,
    {
        proof {
            use_type_invariant(self);
        }
        Ticket {
            data: self.data.clone(),
            product: self.product.clone(),
            userid: self.userid.clone(),
            timestamp: self.timestamp,
        }
    }
}

impl Ticket {
    #[verifier::type_invariant]
    spec fn inv(&self) -> bool {
        parse_ticket(self.data@) == Ok::<TicketView, TicketError>(self@)
    }

    /// A ticket is valid when its fields are what its token decomposes into.
    /// Every ticket that `parse` returns is valid.
    pub closed spec fn wf(&self) -> bool {
        self.inv()
    }

    /// Takes a token apart.
    pub fn parse(raw: &str) -> (r: Result<Ticket, TicketError>)
        ensures
            match r {
                Ok(t) => t.wf() && parse_ticket(raw@) == Ok::<TicketView, TicketError>(t@),
                Err(e) => parse_ticket(raw@) == Err::<TicketView, TicketError>(e),
            },
    {
        let v = chars_of(raw);
        let c1 = find_char(&v, ':', 0);
        if c1 >= v.len() {
            return Err(TicketError::Invalid);
        }
        let c2 = find_char(&v, ':', c1 + 1);
        if c2 >= v.len() {
            return Err(TicketError::Invalid);
        }
        let c3 = find_char(&v, ':', c2 + 1);
        if c3 >= v.len() || c3 + 1 >= v.len() || v[c3 + 1] != ':' {
            return Err(TicketError::Invalid);
        }
        proof {
            lemma_find_from(v@, ':', 0);
            lemma_find_from(v@, ':', c1 + 1);
            lemma_find_from(v@, ':', c2 + 1);
        }
        if c1 == 0 || c2 == c1 + 1 {
            return Err(TicketError::Malformed);
        }
        let timestamp = match parse_stamp(&v, c2 + 1, c3) {
            Some(t) => t,
            None => {
                return Err(TicketError::Malformed);
            },
        };
        let product = raw.substring_char(0, c1).to_owned();
        let userid = raw.substring_char(c1 + 1, c2).to_owned();
        Ok(Ticket { data: raw.to_owned(), product, userid, timestamp })
    }

    /// The token, exactly as it was parsed.
    pub fn format(&self) -> (r: String)
        ensures
            r@ == self@.raw,
            parse_ticket(r@) == Ok::<TicketView, TicketError>(self@),
    {
        proof {
            use_type_invariant(self);
        }
        self.data.clone()
    }

    /// Gives up the ticket for its token.
    pub fn into_string(self) -> (r: String)
        ensures
            r@ == self@.raw,
    {
        self.data
    }

    /// The tag of the system that issued the ticket.
    pub fn product(&self) -> (r: &str)
        ensures
            r@ == self@.product,
    {
        self.product.as_str()
    }

    /// The user the ticket was issued to.
    pub fn userid(&self) -> (r: &str)
        ensures
            r@ == self@.userid,
    {
        self.userid.as_str()
    }

    /// When the ticket was issued, in seconds since the epoch.
    pub fn timestamp(&self) -> (r: i64)
        ensures
            r == self@.timestamp,
    {
        self.timestamp
    }
}

impl std::str::FromStr for Ticket {
    type Err = TicketError;

    /// Takes a token apart, as [`Ticket::parse`] does.
    fn from_str(s: &str) -> (r: Result<Ticket, TicketError>)
        ensures
            match r {
                Ok(t) => t.wf() && parse_ticket(s@) == Ok::<TicketView, TicketError>(t@),
                Err(e) => parse_ticket(s@) == Err::<TicketView, TicketError>(e),
            },
    {
        Ticket::parse(s)
    }
}

/// Parsing what `format` gives returns the same ticket.
pub proof fn lemma_parse_format(t: Ticket)
    requires
        t.wf(),
    ensures
        parse_ticket(t@.raw) == Ok::<TicketView, TicketError>(t@),
{
}

/// A token put together from well-formed fields decomposes into those fields.
pub proof fn lemma_parse_compose(
    product: Seq<char>,
    userid: Seq<char>,
    stamp: Seq<char>,
    signature: Seq<char>,
)
    requires
        product.len() > 0,
        userid.len() > 0,
        !product.contains(':'),
        !userid.contains(':'),
        is_timestamp(stamp),
    ensures
        parse_ticket(compose_ticket(product, userid, stamp, signature)) == Ok::<
            TicketView,
            TicketError,
        >(
            TicketView {
                raw: compose_ticket(product, userid, stamp, signature),
                product,
                userid,
                timestamp: hex_value(stamp),
                signature,
            },
        ),
{
    let s = compose_ticket(product, userid, stamp, signature);
    let c1 = product.len() as int;
    let c2 = c1 + 1 + userid.len();
    let c3 = c2 + 1 + stamp.len();
    assert forall|j: int| 0 <= j < c1 implies s[j] != ':' by {
        assert(s[j] == product[j]);
    }
    assert forall|j: int| c1 + 1 <= j < c2 implies s[j] != ':' by {
        assert(s[j] == userid[j - c1 - 1]);
    }
    assert forall|j: int| c2 + 1 <= j < c3 implies s[j] != ':' by {
        assert(s[j] == stamp[j - c2 - 1]);
        assert(is_hex_digit(stamp[j - c2 - 1]));
    }
    lemma_find_from_is(s, ':', 0, c1);
    lemma_find_from_is(s, ':', c1 + 1, c2);
    lemma_find_from_is(s, ':', c2 + 1, c3);
    assert(s.subrange(0, c1) =~= product);
    assert(s.subrange(c1 + 1, c2) =~= userid);
    assert(s.subrange(c2 + 1, c3) =~= stamp);
    assert(s.subrange(c3 + 2, s.len() as int) =~= signature);
}

} // verus!
