use vstd::prelude::*;
use crate::text_location::TextLocation;
use crate::token_regex::{TokenRegex, regex_found};

verus! {

/// The mutable part of a scanner, as mathematics: the text still to be
/// consumed and the position its first character has in the whole source.
#[verifier::ext_equal]
pub struct ScanState {
    pub remaining: Seq<char>,
    pub location: TextLocation,
}

/// What one request for a token amounts to, decided before any text is
/// consumed for it.
pub enum SpecOutcome<TType> {
    /// A visible token is emitted: its category, its text, the location of
    /// its first character, and the scanner state after consuming it.
    Token { cat: TType, text: Seq<char>, location: TextLocation, state: ScanState },
    /// The text was exhausted: the end-of-input token is emitted at the
    /// current location and the state does not advance further.
    Finished { state: ScanState },
    /// No further progress is possible: either no rule matches the start of
    /// the non-empty text, or the best match is a skip token of length zero,
    /// which consuming would never get past. No token is given out, and the
    /// state stays where the last consumed token left it.
    NoToken { state: ScanState },
}

/// The best match among the first `n` rules: the strictly longest one, the
/// earliest rule winning ties, given as the rule's index and the matched text.
pub open spec fn best_match_upto<TType>(
    rules: Seq<TokenRegex<TType>>,
    text: Seq<char>,
    n: int,
) -> Option<(int, Seq<char>)>
    decreases n,
{
    if n <= 0 {
        None
    } else {
        let prev = best_match_upto(rules, text, n - 1);
        match regex_found(rules[n - 1].regex, text) {
            Option::None => prev,
            Option::Some(m) => match prev {
                Option::None => Some((n - 1, m)),
                Option::Some(p) => if p.1.len() < m.len() {
                    Some((n - 1, m))
                } else {
                    prev
                },
            },
        }
    }
}

/// The best match among all rules (maximal munch, first rule wins ties).
pub open spec fn best_match<TType>(
    rules: Seq<TokenRegex<TType>>,
    text: Seq<char>,
) -> Option<(int, Seq<char>)> {
    best_match_upto(rules, text, rules.len() as int)
}

/// How consuming a token of length `len` moves a location: a new-line token
/// resets the column to 1 and increments the line; any other token widens the
/// column by the token's length. Both counters saturate at the largest `u64`
/// instead of overflowing.
pub open spec fn spec_advance_location(loc: TextLocation, is_new_line: bool, len: nat) -> TextLocation {
    if is_new_line {
        TextLocation {
            column: 1,
            line: if loc.line == u64::MAX { u64::MAX } else { (loc.line + 1) as u64 },
        }
    } else {
        TextLocation {
            column: if loc.column + len > u64::MAX { u64::MAX } else { (loc.column + len) as u64 },
            line: loc.line,
        }
    }
}

/// The state after consuming `len` characters as one token of the given kind.
pub open spec fn spec_consume(st: ScanState, is_new_line: bool, len: nat) -> ScanState {
    ScanState {
        remaining: if len <= st.remaining.len() {
            st.remaining.skip(len as int)
        } else {
            Seq::empty()
        },
        location: spec_advance_location(st.location, is_new_line, len),
    }
}

/// One full request for a token: raw-match the rules against the remaining
/// text, consume and drop skip tokens, and stop at a visible token, at the
/// end of the text, or when no rule matches.
pub open spec fn scan_next<TType>(rules: Seq<TokenRegex<TType>>, st: ScanState) -> SpecOutcome<TType>
    decreases st.remaining.len(),
{
    if st.remaining.len() == 0 {
        SpecOutcome::Finished { state: st }
    } else {
        match best_match(rules, st.remaining) {
            Option::None => SpecOutcome::NoToken { state: st },
            Option::Some(best) => {
                if rules[best.0].is_skip {
                    if 0 < best.1.len() <= st.remaining.len() {
                        scan_next(rules, spec_consume(st, rules[best.0].is_new_line, best.1.len()))
                    } else {
                        SpecOutcome::NoToken { state: st }
                    }
                } else {
                    SpecOutcome::Token {
                        cat: rules[best.0].t_type,
                        text: best.1,
                        location: st.location,
                        state: spec_consume(st, rules[best.0].is_new_line, best.1.len()),
                    }
                }
            },
        }
    }
}

} // verus!
