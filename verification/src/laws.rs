use vstd::prelude::*;
use crate::scan_model::{ScanState, SpecOutcome, best_match, best_match_upto, scan_next,
    spec_advance_location, spec_consume};
use crate::text_location::TextLocation;
use crate::token_regex::{TokenRegex, regex_found};

verus! {

/// `b` lies no earlier than `a` in the source: on a later line, or on the
/// same line at the same or a later column.
pub open spec fn location_le(a: TextLocation, b: TextLocation) -> bool {
    a.line < b.line || (a.line == b.line && a.column <= b.column)
}

proof fn lemma_best_match_upto_sound<TType>(
    rules: Seq<TokenRegex<TType>>,
    text: Seq<char>,
    n: int,
)
    requires
        0 <= n <= rules.len(),
    ensures
        best_match_upto(rules, text, n) matches Some(best) ==> {
            &&& 0 <= best.0 < n
            &&& regex_found(rules[best.0].regex, text) == Some(best.1)
            &&& forall|j: int|
                0 <= j < n && (#[trigger] regex_found(rules[j].regex, text)) is Some
                    ==> regex_found(rules[j].regex, text)->Some_0.len() <= best.1.len()
            &&& forall|j: int|
                0 <= j < best.0 && (#[trigger] regex_found(rules[j].regex, text)) is Some
                    ==> regex_found(rules[j].regex, text)->Some_0.len() < best.1.len()
        },
        best_match_upto(rules, text, n) is None ==> forall|j: int|
            0 <= j < n ==> (#[trigger] regex_found(rules[j].regex, text)) is None,
    decreases n,
{
    if n > 0 {
        lemma_best_match_upto_sound(rules, text, n - 1);
    }
}

/// Maximal munch: when the rules pick a winner on a text, the winner is a
/// rule whose pattern matched, no rule's match is longer than the winner's,
/// and every earlier rule's match is strictly shorter, so on an exact tie of
/// lengths the rule declared first wins. When no winner is picked, no rule's
/// pattern matched at all.
pub proof fn lemma_maximal_munch<TType>(rules: Seq<TokenRegex<TType>>, text: Seq<char>)
    ensures
        best_match(rules, text) matches Some(best) ==> {
            &&& 0 <= best.0 < rules.len()
            &&& regex_found(rules[best.0].regex, text) == Some(best.1)
            &&& forall|j: int|
                0 <= j < rules.len() && (#[trigger] regex_found(rules[j].regex, text)) is Some
                    ==> regex_found(rules[j].regex, text)->Some_0.len() <= best.1.len()
            &&& forall|j: int|
                0 <= j < best.0 && (#[trigger] regex_found(rules[j].regex, text)) is Some
                    ==> regex_found(rules[j].regex, text)->Some_0.len() < best.1.len()
        },
        best_match(rules, text) is None ==> forall|j: int|
            0 <= j < rules.len() ==> (#[trigger] regex_found(rules[j].regex, text)) is None,
{
    lemma_best_match_upto_sound(rules, text, rules.len() as int);
}

/// Skip transparency: a leading skip token never shows up in the outcome of
/// a scan. Consuming it only moves the cursor past its text and advances the
/// location; the scan then goes on from the moved state unchanged.
pub proof fn lemma_skip_transparency<TType>(
    rules: Seq<TokenRegex<TType>>,
    st: ScanState,
    i: int,
    m: Seq<char>,
)
    requires
        st.remaining.len() > 0,
        best_match(rules, st.remaining) == Some((i, m)),
        0 <= i < rules.len(),
        rules[i].is_skip,
        0 < m.len() <= st.remaining.len(),
    ensures
        scan_next(rules, st) == scan_next(rules, spec_consume(st, rules[i].is_new_line, m.len())),
{
}

/// Consuming a new-line token resets the column to 1 and moves to the next
/// line, whatever the token's length.
pub proof fn lemma_new_line_resets_column(loc: TextLocation, len: nat)
    requires
        loc.line < u64::MAX,
    ensures
        spec_advance_location(loc, true, len).column == 1,
        spec_advance_location(loc, true, len).line == loc.line + 1,
{
}

/// Consuming any other token stays on the same line and widens the column by
/// exactly the token's length, as long as the column does not hit the
/// numeric limit.
pub proof fn lemma_plain_token_widens_column(loc: TextLocation, len: nat)
    requires
        loc.column + len <= u64::MAX,
    ensures
        spec_advance_location(loc, false, len).column == loc.column + len,
        spec_advance_location(loc, false, len).line == loc.line,
{
}

/// End of input is a token: an exhausted text always scans to the
/// end-of-input outcome, at the state the last consumed token left, and the
/// state does not advance further. That the token comes exactly once is part
/// of `next_token`'s own contract: giving it out finishes the scanner, and a
/// finished scanner returns nothing on every later request.
pub proof fn lemma_end_of_input<TType>(rules: Seq<TokenRegex<TType>>, st: ScanState)
    requires
        st.remaining.len() == 0,
    ensures
        scan_next(rules, st) == (SpecOutcome::<TType>::Finished { state: st }),
{
}

/// No match yields no token and corrupts nothing: when no rule matches the
/// non-empty remaining text, the scan gives out nothing and leaves the state
/// exactly where the last consumed token left it.
pub proof fn lemma_no_match_preserves_state<TType>(rules: Seq<TokenRegex<TType>>, st: ScanState)
    requires
        st.remaining.len() > 0,
        best_match(rules, st.remaining) is None,
    ensures
        scan_next(rules, st) == (SpecOutcome::<TType>::NoToken { state: st }),
{
}

/// Positions only move forward: over one whole scan, the line never
/// decreases, and the column never decreases unless the line increases; an
/// emitted token's location lies between the state before the scan and the
/// state after it. The bound on line plus remaining length keeps the line
/// counter away from its numeric limit, where saturation would otherwise
/// stall it while a new line still resets the column.
pub proof fn lemma_position_monotone<TType>(rules: Seq<TokenRegex<TType>>, st: ScanState)
    requires
        st.location.line + st.remaining.len() < u64::MAX,
    ensures
        match scan_next(rules, st) {
            SpecOutcome::Token { location, state, .. } => location_le(st.location, location)
                && location_le(location, state.location),
            SpecOutcome::Finished { state } => location_le(st.location, state.location),
            SpecOutcome::NoToken { state } => location_le(st.location, state.location),
        },
    decreases st.remaining.len(),
{
    if st.remaining.len() > 0 {
        lemma_maximal_munch(rules, st.remaining);
        match best_match(rules, st.remaining) {
            Option::None => {},
            Option::Some(best) => {
                assert(0 <= best.0 < rules.len());
                let moved = spec_consume(st, rules[best.0].is_new_line, best.1.len());
                assert(location_le(st.location, moved.location));
                if rules[best.0].is_skip && 0 < best.1.len() <= st.remaining.len() {
                    assert(moved.remaining.len() == st.remaining.len() - best.1.len());
                    lemma_position_monotone(rules, moved);
                    assert(scan_next(rules, st) == scan_next(rules, moved));
                }
            },
        }
    }
}

} // verus!
