use crate::fetch::Fetch;
use crate::print::Print;
use vstd::prelude::*;

verus! {

/// A character with the Unicode `White_Space` property.
pub open spec fn is_white(c: char) -> bool {
    ('\u{9}' <= c && c <= '\u{d}') || c == ' ' || c == '\u{85}' || c == '\u{a0}'
        || c == '\u{1680}' || ('\u{2000}' <= c && c <= '\u{200a}') || c == '\u{2028}'
        || c == '\u{2029}' || c == '\u{202f}' || c == '\u{205f}' || c == '\u{3000}'
}

/// `s` without its leading white space.
pub open spec fn strip_front(s: Seq<char>) -> Seq<char>
    decreases s.len(),
{
    if s.len() > 0 && is_white(s[0]) {
        strip_front(s.drop_first())
    } else {
        s
    }
}

/// `s` without its trailing white space.
pub open spec fn strip_back(s: Seq<char>) -> Seq<char>
    decreases s.len(),
{
    if s.len() > 0 && is_white(s.last()) {
        strip_back(s.drop_last())
    } else {
        s
    }
}

/// `s` without leading or trailing white space.
pub open spec fn trimmed(s: Seq<char>) -> Seq<char> {
    strip_back(strip_front(s))
}

/// Relies on `str::trim`: leading and trailing characters with the Unicode
/// `White_Space` property are removed, and nothing else.
#[verifier::external_body]
fn trim_white(s: &str) -> (r: &str)
    ensures
        r@ == trimmed(s@),
{
    s.trim()
}

/// What a worker prints for fetched `data`: the data without surrounding
/// white space.
pub fn tidy(data: &str) -> (r: &str)
    ensures
        r@ == trimmed(data@),
{
    trim_white(data)
}

/// Fetches a string and prints it, trimmed.
pub struct Worker<F, P> {
    fetcher: F,
    printer: P,
}

impl<F, P> Worker<F, P> {
    pub closed spec fn fetcher_spec(&self) -> F {
        self.fetcher
    }

    pub closed spec fn printer_spec(&self) -> P {
        self.printer
    }

    pub fn new(fetcher: F, printer: P) -> (r: Self)
        ensures
            r.fetcher_spec() == fetcher,
            r.printer_spec() == printer,
    {
        Worker { fetcher, printer }
    }

    pub fn fetcher(&self) -> (r: &F)
        ensures
            *r == self.fetcher_spec(),
    {
        &self.fetcher
    }

    pub fn printer(&self) -> (r: &P)
        ensures
            *r == self.printer_spec(),
    {
        &self.printer
    }
}

impl<F: Fetch, P: Print> Worker<F, P> {
    /// Fetches once and prints what `tidy` makes of it.
    pub fn work(&self) {
        let data = self.fetcher.fetch();
        let good_data = tidy(data.as_str());
        self.printer.print(good_data);
    }
}

} // verus!
