use rand::distributions::{Alphanumeric, DistString};
use vstd::prelude::*;
use vstd::string::StrSliceExecFns;

verus! {

/// The character of one decimal digit.
pub open spec fn digit_char(d: int) -> char
    recommends
        0 <= d <= 9,
{
    if d == 0 {
        '0'
    } else if d == 1 {
        '1'
    } else if d == 2 {
        '2'
    } else if d == 3 {
        '3'
    } else if d == 4 {
        '4'
    } else if d == 5 {
        '5'
    } else if d == 6 {
        '6'
    } else if d == 7 {
        '7'
    } else if d == 8 {
        '8'
    } else {
        '9'
    }
}

/// The decimal digits of a natural number, without leading zeros.
pub open spec fn decimal_digits(n: nat) -> Seq<char>
    decreases n,
{
    if n < 10 {
        seq![digit_char(n as int)]
    } else {
        decimal_digits(n / 10).push(digit_char((n % 10) as int))
    }
}

/// An integer in decimal, with `-` before a negative one.
pub open spec fn decimal(n: int) -> Seq<char> {
    if n < 0 {
        seq!['-'] + decimal_digits((-n) as nat)
    } else {
        decimal_digits(n as nat)
    }
}

/// `i64::to_string`: the number in decimal, as `Display` writes it.
#[verifier::external_body]
pub(crate) fn i64_to_text(n: i64) -> (s: String)
    ensures
        s@ == decimal(n as int),
{
    n.to_string()
}

/// Page size used where the caller names none.
pub const DEFAULT_PAGE_SIZE: u64 = 20;

/// Largest page size handed out, whatever the caller asks for.
pub const MAX_PAGE_SIZE: u64 = 100;

/// Why a page could not be laid out.
#[derive(Debug)]
pub enum PaginationError {
    InvalidPage(String),
    InvalidSize(String),
}

impl PaginationError {
    /// What [`PaginationError::message`] writes.
    pub open spec fn spec_message(&self) -> Seq<char> {
        match self {
            PaginationError::InvalidPage(m) => "Invalid page number: "@ + m@,
            PaginationError::InvalidSize(m) => "Invalid page size: "@ + m@,
        }
    }

    /// The error in words.
    pub fn message(&self) -> (r: String)
        ensures
            r@ == self.spec_message(),
    {
        match self {
            PaginationError::InvalidPage(m) => "Invalid page number: ".to_owned().concat(
                m.as_str(),
            ),
            PaginationError::InvalidSize(m) => "Invalid page size: ".to_owned().concat(m.as_str()),
        }
    }
}

/// A window into a listing: skip `offset` items, then take `limit`.
#[derive(Debug, Clone, Copy)]
pub struct Pagination {
    pub offset: u64,
    pub limit: u64,
}

/// The page size that a request for `size` gets.
pub open spec fn page_limit(size: Option<u64>) -> int {
    let wanted = match size {
        Some(s) => s as int,
        None => DEFAULT_PAGE_SIZE as int,
    };
    if wanted <= MAX_PAGE_SIZE {
        wanted
    } else {
        MAX_PAGE_SIZE as int
    }
}

/// The number of items before page `page`, pages being counted from 1.
pub open spec fn page_offset(page: Option<u64>, size: Option<u64>) -> int {
    match page {
        Some(p) => (p - 1) * page_limit(size),
        None => 0,
    }
}

/// Whether `r` is what laying out page `page` of size `size` gives: a size
/// of 0 is `InvalidSize`; else page 0, or a page whose offset does not fit
/// 64 bits, is `InvalidPage`; else the window itself.
pub open spec fn lays_out(
    page: Option<u64>,
    size: Option<u64>,
    r: Result<Pagination, PaginationError>,
) -> bool {
    if page_limit(size) == 0 {
        r matches Err(PaginationError::InvalidSize(m)) && m@ == "Page size cannot be zero"@
    } else if page == Some(0u64) {
        r matches Err(PaginationError::InvalidPage(m)) && m@ == "Page number must be positive"@
    } else if page_offset(page, size) > u64::MAX {
        r matches Err(PaginationError::InvalidPage(m)) && m@ == "Page number is too large"@
    } else {
        match r {
            Ok(p) => p.limit == page_limit(size) && p.offset == page_offset(page, size),
            Err(_) => false,
        }
    }
}

impl Default for Pagination {
    fn default() -> (r: Self)
        ensures
            r.offset == 0,
            r.limit == DEFAULT_PAGE_SIZE,
    {
        Pagination { offset: 0, limit: DEFAULT_PAGE_SIZE }
    }
}

impl Pagination {
    /// Lays out page `page` (counted from 1, the first where none is named)
    /// of `size` items (20 where none is named, at most 100). A size of 0 is
    /// `InvalidSize`; page 0, or a page whose offset does not fit 64 bits,
    /// is `InvalidPage`.
    pub fn new(page: Option<u64>, size: Option<u64>) -> (r: Result<Self, PaginationError>)
        ensures
            lays_out(page, size, r),
    {
        let wanted = match size {
            Some(s) => s,
            None => DEFAULT_PAGE_SIZE,
        };
        let limit = if wanted <= MAX_PAGE_SIZE {
            wanted
        } else {
            MAX_PAGE_SIZE
        };
        if limit == 0 {
            return Err(PaginationError::InvalidSize("Page size cannot be zero".to_owned()));
        }
        let offset = match page {
            Some(p) => {
                if p == 0 {
                    return Err(
                        PaginationError::InvalidPage("Page number must be positive".to_owned()),
                    );
                }
                match (p - 1).checked_mul(limit) {
                    Some(offset) => offset,
                    None => {
                        return Err(
                            PaginationError::InvalidPage("Page number is too large".to_owned()),
                        );
                    },
                }
            },
            None => 0,
        };
        Ok(Pagination { offset, limit })
    }

    /// Whether the listing is to count all its rows: on its first page
    /// only.
    pub fn counts_total(&self) -> (r: bool)
        ensures
            r == (self.offset == 0),
    {
        self.offset == 0
    }

    /// Lays out the page that a query asks for in its members `page` and
    /// `size`. A member that is missing or is no number counts as not named.
    pub fn from_query(args: &Vec<(String, String)>) -> (r: Result<Self, PaginationError>)
        ensures
            lays_out(query_number(args@, "page"@), query_number(args@, "size"@), r),
    {
        let size = match query_get(args, "size") {
            Some(v) => parse_u64(v.as_str()),
            None => None,
        };
        let page = match query_get(args, "page") {
            Some(v) => parse_u64(v.as_str()),
            None => None,
        };
        Self::new(page, size)
    }
}

/// The value that a query holds for `key`: that of the last pair with this
/// key, as in a map filled pair by pair.
pub open spec fn query_value(args: Seq<(String, String)>, key: Seq<char>) -> Option<Seq<char>>
    decreases args.len(),
{
    if args.len() == 0 {
        None
    } else if args.last().0@ == key {
        Some(args.last().1@)
    } else {
        query_value(args.drop_last(), key)
    }
}

/// The number that a query holds for `key`, if it holds one.
pub open spec fn query_number(args: Seq<(String, String)>, key: Seq<char>) -> Option<u64> {
    match query_value(args, key) {
        Some(v) => parse_u64_spec(v),
        None => None,
    }
}

/// The text that a query holds for `key`, where it holds one that is not
/// empty.
pub open spec fn query_text(args: Seq<(String, String)>, key: Seq<char>) -> Option<Seq<char>> {
    match query_value(args, key) {
        Some(v) => if v.len() > 0 {
            Some(v)
        } else {
            None
        },
        None => None,
    }
}

/// Looks `key` up in a query and passes over an empty value: the text to
/// filter a listing by, if the query names one.
pub fn query_filter<'a>(args: &'a Vec<(String, String)>, key: &str) -> (r: Option<&'a String>)
    ensures
        match query_text(args@, key@) {
            Some(v) => r matches Some(s) && s@ == v,
            None => r is None,
        },
{
    match query_get(args, key) {
        Some(v) => {
            if v.as_str().is_empty() {
                None
            } else {
                Some(v)
            }
        },
        None => None,
    }
}

/// Looks `key` up in a query.
pub fn query_get<'a>(args: &'a Vec<(String, String)>, key: &str) -> (r: Option<&'a String>)
    ensures
        match query_value(args@, key@) {
            Some(v) => r matches Some(s) && s@ == v,
            None => r is None,
        },
{
    let wanted = key.to_owned();
    let mut i = args.len();
    assert(args@.take(i as int) =~= args@);
    while i > 0
        invariant
            i <= args.len(),
            wanted@ == key@,
            query_value(args@, key@) == query_value(args@.take(i as int), key@),
        decreases i,
    {
        i -= 1;
        proof {
            let upto = args@.take(i + 1);
            assert(upto.last() == args@[i as int]);
            assert(upto.drop_last() =~= args@.take(i as int));
        }
        if args[i].0 == wanted {
            return Some(&args[i].1);
        }
    }
    None
}

/// True of the ten decimal digits.
pub open spec fn is_digit(c: char) -> bool {
    '0' <= c && c <= '9'
}

/// The number written by a text of decimal digits.
pub open spec fn digits_value(s: Seq<char>) -> nat
    decreases s.len(),
{
    if s.len() == 0 {
        0
    } else {
        (digits_value(s.drop_last()) * 10 + (s.last() as int - '0' as int)) as nat
    }
}

/// What reading `s` as an unsigned 64-bit number gives: `s` is one or more
/// decimal digits, with or without a `+` before them, and the number fits.
pub open spec fn parse_u64_spec(s: Seq<char>) -> Option<u64> {
    let body = if s.len() > 0 && s[0] == '+' {
        s.subrange(1, s.len() as int)
    } else {
        s
    };
    if body.len() > 0 && (forall|i: int| 0 <= i < body.len() ==> is_digit(#[trigger] body[i]))
        && digits_value(body) <= u64::MAX {
        Some(digits_value(body) as u64)
    } else {
        None
    }
}

/// `str::parse::<u64>`, with its error dropped. std documents the texts it
/// takes: an optional `+`, then decimal digits only, at least one, whose
/// number fits the type.
#[verifier::external_body]
pub(crate) fn parse_u64(s: &str) -> (r: Option<u64>)
    ensures
        r == parse_u64_spec(s@),
{
    s.parse::<u64>().ok()
}

/// What reading `s` as a signed 64-bit number gives: `s` is one or more
/// decimal digits, with or without a `+` or a `-` before them, and the
/// number fits.
pub open spec fn parse_i64_spec(s: Seq<char>) -> Option<i64> {
    let signed = s.len() > 0 && (s[0] == '+' || s[0] == '-');
    let body = if signed {
        s.subrange(1, s.len() as int)
    } else {
        s
    };
    let value = if s.len() > 0 && s[0] == '-' {
        -(digits_value(body) as int)
    } else {
        digits_value(body) as int
    };
    if body.len() > 0 && (forall|i: int| 0 <= i < body.len() ==> is_digit(#[trigger] body[i]))
        && i64::MIN <= value <= i64::MAX {
        Some(value as i64)
    } else {
        None
    }
}

/// `str::parse::<i64>`, with its error dropped. std documents the texts it
/// takes: an optional sign, then decimal digits only, at least one, whose
/// number fits the type.
#[verifier::external_body]
pub(crate) fn parse_i64(s: &str) -> (r: Option<i64>)
    ensures
        r == parse_i64_spec(s@),
{
    s.parse::<i64>().ok()
}

/// True of the letters `a` to `z` and `A` to `Z` and of the ten digits.
pub open spec fn is_alphanumeric(c: char) -> bool {
    ('a' <= c && c <= 'z') || ('A' <= c && c <= 'Z') || ('0' <= c && c <= '9')
}

/// `Alphanumeric.sample_string` of the crate rand on `thread_rng()`: `size`
/// characters drawn at random from the letters and digits of ASCII.
#[verifier::external_body]
fn sample_alphanumeric(size: usize) -> (s: String)
    ensures
        s@.len() == size,
        forall|i: int| 0 <= i < s@.len() ==> is_alphanumeric(#[trigger] s@[i]),
{
    Alphanumeric.sample_string(&mut rand::thread_rng(), size)
}

/// A random text of `size` letters and digits.
pub fn nonce(size: usize) -> (s: String)
    ensures
        s@.len() == size,
        forall|i: int| 0 <= i < s@.len() ==> is_alphanumeric(#[trigger] s@[i]),
{
    sample_alphanumeric(size)
}

/// Whether `text` begins with `prefix`.
pub fn starts_with(text: &str, prefix: &str) -> (r: bool)
    ensures
        r == prefix@.is_prefix_of(text@),
{
    let n = prefix.unicode_len();
    if text.unicode_len() < n {
        return false;
    }
    let mut i: usize = 0;
    while i < n
        invariant
            i <= n,
            n == prefix@.len(),
            n <= text@.len(),
            forall|j: int| 0 <= j < i ==> text@[j] == prefix@[j],
        decreases n - i,
    {
        if text.get_char(i) != prefix.get_char(i) {
            assert(text@.subrange(0, n as int)[i as int] == text@[i as int]);
            return false;
        }
        i += 1;
    }
    assert(prefix@ =~= text@.subrange(0, n as int));
    true
}

} // verus!
