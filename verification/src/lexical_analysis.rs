use vstd::prelude::*;
use vstd::string::StrSliceExecFns;
use crate::lex_spec::LexSpec;
use crate::lexer::Lexer;
use crate::scan_model::{ScanState, SpecOutcome, best_match, best_match_upto, scan_next,
    spec_advance_location, spec_consume};
use crate::text_location::{TextLocation, location_wf};
use crate::token::Token;
use crate::token_regex::TokenRegex;
use crate::traceable_token::TraceableToken;

verus! {

pub const FIRST_COL: u64 = 1;

pub const FIRST_LINE: u64 = 1;

/// The scanning engine: a cursor into the yet-unconsumed part of one source
/// buffer, the position of that cursor, and the rule set it scans by. Once
/// the end-of-input token has been emitted, or a new buffer is loaded, the
/// old sequence of tokens is over.
pub struct LexicalAnalysis<'a, TType> {
    source: &'a str,
    current_location: TextLocation,
    lex_spec: &'a LexSpec<TType>,
    finished: bool,
}

impl<'a, TType> LexicalAnalysis<'a, TType> {
    /// The text still to be consumed, and where its first character lies.
    pub closed spec fn state(&self) -> ScanState {
        ScanState { remaining: self.source@, location: self.current_location }
    }

    /// The ordered rules of the rule set this scanner was built over.
    pub closed spec fn rules(&self) -> Seq<TokenRegex<TType>> {
        self.lex_spec.token_regex_collection@
    }

    /// The category that the rule set gives the end-of-input token.
    pub closed spec fn eof_token_type(&self) -> TType {
        self.lex_spec.eof_token
    }

    /// Whether the end-of-input token has already been emitted.
    pub closed spec fn is_finished(&self) -> bool {
        self.finished
    }

    /// The scanner's position is 1-based on both axes.
    pub open spec fn wf(&self) -> bool {
        location_wf(self.state().location)
    }

    fn get_starting_location() -> (r: TextLocation)
        ensures
            r.column == FIRST_COL,
            r.line == FIRST_LINE,
    {
        TextLocation::new(FIRST_COL, FIRST_LINE)
    }

    pub fn new(source: &'a str, lex_spec: &'a LexSpec<TType>) -> (r: Self)
        ensures
            r.state() == (ScanState {
                remaining: source@,
                location: TextLocation { column: FIRST_COL, line: FIRST_LINE },
            }),
            r.rules() == lex_spec.token_regex_collection@,
            r.eof_token_type() == lex_spec.eof_token,
            !r.is_finished(),
            r.wf(),
    {
        LexicalAnalysis {
            current_location: Self::get_starting_location(),
            lex_spec,
            source,
            finished: false,
        }
    }

    /// Drop whatever text was left and start afresh over a new buffer, with
    /// the same rule set.
    pub fn load_source(&mut self, source: &'a str)
        ensures
            final(self).state() == (ScanState {
                remaining: source@,
                location: TextLocation { column: FIRST_COL, line: FIRST_LINE },
            }),
            final(self).rules() == old(self).rules(),
            final(self).eof_token_type() == old(self).eof_token_type(),
            !final(self).is_finished(),
            final(self).wf(),
    {
        self.source = source;
        self.current_location = Self::get_starting_location();
        self.finished = false;
    }

    /// Match every rule against the start of the remaining text and keep the
    /// strictly longest match, the earliest rule winning ties.
    fn try_parse_next_token_from_source(&self) -> (r: Option<(usize, String)>)
        ensures
            r matches Some(p) ==> {
                &&& p.0 < self.rules().len()
                &&& best_match(self.rules(), self.state().remaining) == Some((p.0 as int, p.1@))
                &&& p.1@.len() <= self.state().remaining.len()
            },
            r is None ==> best_match(self.rules(), self.state().remaining) is None,
    {
        let token_regex_collection: &Vec<TokenRegex<TType>> = &self.lex_spec.token_regex_collection;
        let rule_count: usize = token_regex_collection.len();
        let mut current_token_wrap: Option<(usize, String)> = None;
        let mut current_length: usize = 0;
        let mut index: usize = 0;
        while index < rule_count
            invariant
                index <= rule_count,
                rule_count == self.rules().len(),
                token_regex_collection@ == self.rules(),
                current_token_wrap matches Some(p) ==> {
                    &&& p.0 < index
                    &&& best_match_upto(self.rules(), self.state().remaining, index as int)
                        == Some((p.0 as int, p.1@))
                    &&& p.1@.len() == current_length
                    &&& p.1@.len() <= self.state().remaining.len()
                },
                current_token_wrap is None ==> best_match_upto(
                    self.rules(),
                    self.state().remaining,
                    index as int,
                ) is None,
            decreases rule_count - index,
        {
            let regex_match_wrap = crate::token_regex::regex_find(
                &token_regex_collection[index].regex,
                self.source,
            );
            match regex_match_wrap {
                Some(matched_text) => {
                    let match_length: usize = matched_text.as_str().unicode_len();
                    if current_token_wrap.is_none() || current_length < match_length {
                        current_token_wrap = Some((index, matched_text));
                        current_length = match_length;
                    }
                },
                None => {},
            }
            index = index + 1;
        }
        current_token_wrap
    }

    /// Move the cursor past the `length` characters just consumed.
    fn update_source_reference(&mut self, length: usize)
        requires
            length <= old(self).state().remaining.len(),
        ensures
            final(self).state().remaining == old(self).state().remaining.skip(length as int),
            final(self).state().location == old(self).state().location,
            final(self).rules() == old(self).rules(),
            final(self).eof_token_type() == old(self).eof_token_type(),
            final(self).is_finished() == old(self).is_finished(),
    {
        let source: &'a str = self.source;
        let total: usize = source.unicode_len();
        self.source = source.substring_char(length, total);
        proof {
            assert(self.source@ =~= old(self).state().remaining.skip(length as int));
        }
    }

    /// Account for one consumed token in the position: a new-line token
    /// resets the column and increments the line, any other token widens the
    /// column by the token's length.
    fn update_source_location(&mut self, is_new_line: bool, length: usize)
        ensures
            final(self).state().location == spec_advance_location(
                old(self).state().location,
                is_new_line,
                length as nat,
            ),
            final(self).state().remaining == old(self).state().remaining,
            final(self).rules() == old(self).rules(),
            final(self).eof_token_type() == old(self).eof_token_type(),
            final(self).is_finished() == old(self).is_finished(),
    {
        if is_new_line {
            self.current_location.column = FIRST_COL;
            if self.current_location.line < u64::MAX {
                self.current_location.line = self.current_location.line + 1;
            }
        } else {
            let length64: u64 = length as u64;
            if self.current_location.column <= u64::MAX - length64 {
                self.current_location.column = self.current_location.column + length64;
            } else {
                self.current_location.column = u64::MAX;
            }
        }
    }

}

impl<'a, TType: Copy> LexicalAnalysis<'a, TType> {
    /// Give out the next visible token: consume and drop skip tokens, then
    /// emit the first visible one with the location it starts at, the
    /// end-of-input token exactly once when the text runs out, or nothing
    /// when no rule matches what is left.
    pub fn next_token(&mut self) -> (r: Option<TraceableToken<TType>>)
        ensures
            final(self).rules() == old(self).rules(),
            final(self).eof_token_type() == old(self).eof_token_type(),
            old(self).wf() ==> final(self).wf(),
            old(self).is_finished() ==> {
                &&& r is None
                &&& final(self).is_finished()
                &&& final(self).state() == old(self).state()
            },
            !old(self).is_finished() ==> match scan_next(old(self).rules(), old(self).state()) {
                SpecOutcome::Token { cat, text, location, state } => {
                    &&& r matches Some(t)
                    &&& t.location == location
                    &&& t.token.t_type == cat
                    &&& t.token.text@ == text
                    &&& final(self).state() == state
                    &&& !final(self).is_finished()
                },
                SpecOutcome::Finished { state } => {
                    &&& r matches Some(t)
                    &&& t.location == state.location
                    &&& t.token.t_type == old(self).eof_token_type()
                    &&& t.token.text@ == Seq::<char>::empty()
                    &&& final(self).state() == state
                    &&& final(self).is_finished()
                },
                SpecOutcome::NoToken { state } => {
                    &&& r is None
                    &&& final(self).state() == state
                    &&& !final(self).is_finished()
                },
            },
    {
        if self.finished {
            return None;
        }
        let ghost pre_state = self.state();
        let ghost ghost_rules = self.rules();
        loop
            invariant
                !self.finished,
                !old(self).is_finished(),
                self.rules() == ghost_rules,
                ghost_rules == old(self).rules(),
                pre_state == old(self).state(),
                self.eof_token_type() == old(self).eof_token_type(),
                scan_next(ghost_rules, self.state()) == scan_next(ghost_rules, pre_state),
                location_wf(pre_state.location) ==> location_wf(self.state().location),
            decreases self.state().remaining.len(),
        {
            let ghost cur_state = self.state();
            if self.source.is_empty() {
                proof {
                    assert(scan_next(ghost_rules, cur_state)
                        == SpecOutcome::<TType>::Finished { state: cur_state });
                }
                let location = self.current_location;
                self.finished = true;
                let token = Token::new(self.lex_spec.eof_token, String::new());
                return Some(TraceableToken::new(location, token));
            }
            match self.try_parse_next_token_from_source() {
                None => {
                    proof {
                        assert(scan_next(ghost_rules, cur_state)
                            == SpecOutcome::<TType>::NoToken { state: cur_state });
                    }
                    return None;
                },
                Some((index, matched_text)) => {
                    let is_skip = self.lex_spec.token_regex_collection[index].is_skip;
                    let is_new_line = self.lex_spec.token_regex_collection[index].is_new_line;
                    let length: usize = matched_text.as_str().unicode_len();
                    if is_skip {
                        if length == 0 {
                            proof {
                                assert(scan_next(ghost_rules, cur_state)
                                    == SpecOutcome::<TType>::NoToken { state: cur_state });
                            }
                            return None;
                        }
                        self.update_source_reference(length);
                        self.update_source_location(is_new_line, length);
                        proof {
                            assert(self.state()
                                =~= spec_consume(cur_state, is_new_line, length as nat));
                            assert(scan_next(ghost_rules, cur_state) == scan_next(
                                ghost_rules,
                                spec_consume(cur_state, is_new_line, length as nat),
                            ));
                        }
                    } else {
                        let t_type = self.lex_spec.token_regex_collection[index].t_type;
                        let location = self.current_location;
                        self.update_source_reference(length);
                        self.update_source_location(is_new_line, length);
                        proof {
                            assert(self.state()
                                =~= spec_consume(cur_state, is_new_line, length as nat));
                        }
                        let token = Token::new(t_type, matched_text);
                        return Some(TraceableToken::new(location, token));
                    }
                },
            }
        }
    }
}

impl<'a, TType: Copy> Lexer<'a, TType> for LexicalAnalysis<'a, TType> {
    fn load_source(&mut self, source: &'a str) {
        self.load_source(source);
    }

    fn next_token(&mut self) -> Option<TraceableToken<TType>> {
        self.next_token()
    }
}

} // verus!
