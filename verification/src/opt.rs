//! Command-line argument matching: positional arguments, `-key` /
//! `--key` options with or without values, and the `--` end-of-options
//! marker.

use vstd::prelude::*;
use vstd::string::*;

verus! {

/// Parser state, kept as bit flags.
#[derive(Clone, Copy, Debug)]
pub struct State {
    bits: u8,
}

/// Parser is inside positional arguments.
pub const STATE_POS: u8 = 0x01;

/// Parser is inside keyword/option arguments.
pub const STATE_OPT: u8 = 0x02;

/// Got `--`: all following arguments are positional.
pub const STATE_END: u8 = 0x04;

impl State {
    pub closed spec fn spec_bits(&self) -> u8 {
        self.bits
    }

    pub open spec fn spec_is_pos(&self) -> bool {
        self.spec_bits() & STATE_POS != 0
    }

    pub open spec fn spec_is_opt(&self) -> bool {
        self.spec_bits() & STATE_OPT != 0
    }

    pub open spec fn spec_is_end(&self) -> bool {
        self.spec_bits() & STATE_END != 0
    }

    /// The starting state: inside positional arguments.
    pub fn initial() -> (r: State)
        ensures
            r.spec_is_pos(),
            !r.spec_is_opt(),
            !r.spec_is_end(),
    {
        proof {
            assert(STATE_POS & STATE_POS != 0 && STATE_POS & STATE_OPT == 0 && STATE_POS
                & STATE_END == 0) by (bit_vector);
        }
        State { bits: STATE_POS }
    }

    pub fn set_pos(&mut self)
        ensures
            final(self).spec_is_pos(),
            !final(self).spec_is_opt(),
            final(self).spec_is_end() == old(self).spec_is_end(),
    {
        let b = self.bits;
        self.bits = (b & !STATE_OPT) | STATE_POS;
        proof {
            assert(((b & !0x02u8) | 0x01u8) & 0x01u8 != 0 && ((b & !0x02u8) | 0x01u8) & 0x02u8 == 0
                && ((b & !0x02u8) | 0x01u8) & 0x04u8 == b & 0x04u8) by (bit_vector);
        }
    }

    pub fn set_opt(&mut self)
        ensures
            !final(self).spec_is_pos(),
            final(self).spec_is_opt(),
            final(self).spec_is_end() == old(self).spec_is_end(),
    {
        let b = self.bits;
        self.bits = (b & !STATE_POS) | STATE_OPT;
        proof {
            assert(((b & !0x01u8) | 0x02u8) & 0x01u8 == 0 && ((b & !0x01u8) | 0x02u8) & 0x02u8 != 0
                && ((b & !0x01u8) | 0x02u8) & 0x04u8 == b & 0x04u8) by (bit_vector);
        }
    }

    pub fn set_end(&mut self)
        ensures
            final(self).spec_is_pos() == old(self).spec_is_pos(),
            final(self).spec_is_opt() == old(self).spec_is_opt(),
            final(self).spec_is_end(),
    {
        let b = self.bits;
        self.bits = b | STATE_END;
        proof {
            assert((b | 0x04u8) & 0x01u8 == b & 0x01u8 && (b | 0x04u8) & 0x02u8 == b & 0x02u8 && (b
                | 0x04u8) & 0x04u8 != 0) by (bit_vector);
        }
    }

    pub fn is_pos(self) -> (r: bool)
        ensures
            r == self.spec_is_pos(),
    {
        (self.bits & STATE_POS) != 0
    }

    pub fn is_opt(self) -> (r: bool)
        ensures
            r == self.spec_is_opt(),
    {
        (self.bits & STATE_OPT) != 0
    }

    pub fn is_end(self) -> (r: bool)
        ensures
            r == self.spec_is_end(),
    {
        (self.bits & STATE_END) != 0
    }
}

/// One matched argument.
#[derive(Debug, PartialEq, Eq)]
pub enum Match {
    /// Positional parameter.
    Positional(String),
    /// `--key` or `-key`, with the value that followed it, if any.
    Key(String, Option<String>),
    /// `--key=value`, `--key:value` or `--key value`.
    KeyValue(String, String),
    /// An option that requires an argument, given none.
    NoArg(String),
    /// An option that is not in the accepted set.
    UnknownKey(String),
    /// An unknown option with a value.
    UnknownKeyValue(String, String),
    /// A positional argument between options.
    ExtraPositional(String),
    /// An argument the option grammar cannot read at all.
    No(String),
}

/// `Match` by value: what each variant carries, as sequences.
pub enum MatchView {
    Positional(Seq<char>),
    Key(Seq<char>, Option<Seq<char>>),
    KeyValue(Seq<char>, Seq<char>),
    NoArg(Seq<char>),
    UnknownKey(Seq<char>),
    UnknownKeyValue(Seq<char>, Seq<char>),
    ExtraPositional(Seq<char>),
    No(Seq<char>),
}

impl View for Match {
    type V = MatchView;

    open spec fn view(&self) -> MatchView {
        match self {
            Match::Positional(v) => MatchView::Positional(v@),
            Match::Key(k, v) => MatchView::Key(k@, v.deep_view()),
            Match::KeyValue(k, v) => MatchView::KeyValue(k@, v@),
            Match::NoArg(k) => MatchView::NoArg(k@),
            Match::UnknownKey(k) => MatchView::UnknownKey(k@),
            Match::UnknownKeyValue(k, v) => MatchView::UnknownKeyValue(k@, v@),
            Match::ExtraPositional(v) => MatchView::ExtraPositional(v@),
            Match::No(v) => MatchView::No(v@),
        }
    }
}

/// Whether an option takes an argument.
#[derive(Clone, Copy, Debug, PartialEq, Eq, Structural)]
pub enum OptKind {
    /// The option requires an argument.
    Arg,
    /// A bare flag; a following value is still consumed when present.
    NoArg,
}

/// One accepted option: the keys it answers to, and its kind.
#[derive(Debug)]
pub struct Opt(pub Vec<String>, pub OptKind);

/// The accepted option set.
pub type Opts = Vec<Opt>;

/// Whether `o` answers to `key`.
pub open spec fn opt_has_key(o: Opt, key: Seq<char>) -> bool {
    exists|j: int| 0 <= j < o.0@.len() && (#[trigger] o.0@[j])@ == key
}

/// The first option of `opts` that answers to `key`.
pub open spec fn spec_opts_get(opts: Seq<Opt>, key: Seq<char>) -> Option<Opt>
    decreases opts.len(),
{
    if opts.len() == 0 {
        Option::None
    } else if opt_has_key(opts[0], key) {
        Option::Some(opts[0])
    } else {
        spec_opts_get(opts.subrange(1, opts.len() as int), key)
    }
}

/// Look `key` up in the accepted option set, first match wins.
pub fn opts_get<'a>(opts: &'a Opts, key: &String) -> (r: Option<&'a Opt>)
    ensures
        match r {
            Option::Some(o) => spec_opts_get(opts@, key@) == Option::Some(*o),
            Option::None => spec_opts_get(opts@, key@) is None,
        },
{
    let n = opts.len();
    let mut i: usize = 0;
    proof {
        assert(opts@.subrange(0, opts@.len() as int) =~= opts@);
    }
    while i < n
        invariant
            i <= n,
            n == opts@.len(),
            spec_opts_get(opts@, key@) == spec_opts_get(
                opts@.subrange(i as int, opts@.len() as int),
                key@,
            ),
        decreases n - i,
    {
        let o = &opts[i];
        let kn = o.0.len();
        let mut j: usize = 0;
        let mut found = false;
        while j < kn
            invariant
                j <= kn,
                kn == o.0@.len(),
                found ==> opt_has_key(*o, key@),
                !found ==> forall|j2: int| 0 <= j2 < j ==> (#[trigger] o.0@[j2])@ != key@,
            decreases kn - j,
        {
            if !found && o.0[j] == *key {
                found = true;
            }
            j += 1;
        }
        if found {
            proof {
                assert(opts@.subrange(i as int, opts@.len() as int)[0] == opts@[i as int]);
            }
            return Some(o);
        }
        proof {
            let tail = opts@.subrange(i as int, opts@.len() as int);
            assert(tail[0] == opts@[i as int]);
            assert(!opt_has_key(opts@[i as int], key@));
            assert(tail.subrange(1, tail.len() as int) =~= opts@.subrange(
                i + 1,
                opts@.len() as int,
            ));
        }
        i += 1;
    }
    proof {
        assert(opts@.subrange(n as int, opts@.len() as int) =~= Seq::<Opt>::empty());
    }
    None
}

/// An argument starts an option when its first character is a dash.
pub open spec fn spec_is_option(v: Seq<char>) -> bool {
    v.len() > 0 && v[0] == '-'
}

/// `--` ends the options: everything after it is positional.
pub open spec fn spec_is_end(v: Seq<char>) -> bool {
    v == "--"@
}

/// One raw argument.
pub struct Arg {
    pub val: String,
}

impl Arg {
    pub fn new(val: String) -> (r: Arg)
        ensures
            r.val == val,
    {
        Arg { val }
    }

    pub fn is_option(&self) -> (r: bool)
        ensures
            r == spec_is_option(self.val@),
    {
        self.val.as_str().unicode_len() > 0 && self.val.as_str().get_char(0) == '-'
    }

    pub fn is_end(&self) -> (r: bool)
        ensures
            r == spec_is_end(self.val@),
    {
        let r = self.val == String::from_str("--");
        r
    }

    /// Take the key, and the value when one is joined to it:
    /// `--key` gives `(Some(key), None)`,
    /// `--key=value` and `--key:value` give `(Some(key), Some(value))`.
    pub fn extract_key_and_value(&self) -> (r: (Option<String>, Option<String>))
        ensures
            r.0.deep_view() == spec_extract(self.val@).0,
            r.1.deep_view() == spec_extract(self.val@).1,
    {
        let caps = regex_captures(arg_pattern(), self.val.as_str());
        match caps {
            Option::None => (Option::None, Option::None),
            Option::Some(groups) => {
                let key = if groups.len() > 1 {
                    clone_opt_string(&groups[1])
                } else {
                    Option::None
                };
                let value = if groups.len() > 3 {
                    clone_opt_string(&groups[3])
                } else {
                    Option::None
                };
                (key, value)
            },
        }
    }
}

/// The option grammar, as a regular expression: one or two dashes, a
/// key of word characters and dashes, and optionally a separator
/// (`=` or `:`) and a value. Group 1 is the key, group 3 the value.
pub open spec fn spec_arg_pattern() -> Seq<char> {
    "-?-?([a-zA-Z0-9_\\-]+)(?:(:?=|:)?([a-zA-Z0-9_\\-]+))?"@
}

pub fn arg_pattern() -> (r: &'static str)
    ensures
        r@ == spec_arg_pattern(),
{
    "-?-?([a-zA-Z0-9_\\-]+)(?:(:?=|:)?([a-zA-Z0-9_\\-]+))?"
}

/// The leftmost match's capture groups, by group index, that matching
/// `haystack` against `pattern` yields: `None` when the pattern does
/// not compile or does not match; a group that did not participate is
/// `None` inside the sequence. A function of the two texts alone.
pub uninterp spec fn regex_captures_of(pattern: Seq<char>, haystack: Seq<char>) -> Option<
    Seq<Option<Seq<char>>>,
>;

/// Relies on regex::Regex::captures (and Regex::new): the capture
/// groups of the leftmost match, a pure function of the pattern and
/// the haystack.
#[verifier::external_body]
fn regex_captures(pattern: &str, haystack: &str) -> (r: Option<Vec<Option<String>>>)
    ensures
        r.deep_view() == regex_captures_of(pattern@, haystack@),
{
    match regex::Regex::new(pattern) {
        Err(_) => None,
        Ok(re) => re.captures(haystack).map(
            |caps| caps.iter().map(|m| m.map(|m| m.as_str().to_string())).collect(),
        ),
    }
}

/// An owned copy of an optional string.
fn clone_opt_string(o: &Option<String>) -> (r: Option<String>)
    ensures
        r.deep_view() == o.deep_view(),
{
    match o {
        Option::Some(s) => Option::Some(s.clone()),
        Option::None => Option::None,
    }
}

/// What `extract_key_and_value` takes from an argument: capture
/// groups 1 and 3 of the option grammar's leftmost match.
pub open spec fn spec_extract(v: Seq<char>) -> (Option<Seq<char>>, Option<Seq<char>>) {
    match regex_captures_of(spec_arg_pattern(), v) {
        Option::None => (Option::None, Option::None),
        Option::Some(groups) => (
            if groups.len() > 1 {
                groups[1]
            } else {
                Option::None
            },
            if groups.len() > 3 {
                groups[3]
            } else {
                Option::None
            },
        ),
    }
}

/// Matches a fixed argument list against an accepted option set.
pub struct Matcher {
    pub args: Vec<String>,
    pub opts: Opts,
}

impl Matcher {
    pub fn new(args: Vec<String>, opts: Opts) -> (r: Matcher)
        ensures
            r.args == args,
            r.opts == opts,
    {
        Matcher { args, opts }
    }

    /// Hand the arguments to an iterator that yields one `Match` per
    /// `next` call.
    pub fn into_iter(self) -> (r: MatcherIter)
        ensures
            r.args == self.args,
            r.opts == self.opts,
            r.idx == 0,
            r.state.spec_is_pos(),
            !r.state.spec_is_opt(),
            !r.state.spec_is_end(),
    {
        MatcherIter { args: self.args, idx: 0, state: State::initial(), opts: self.opts }
    }
}

/// The iterator over matches; `next` consumes one match worth of
/// arguments at a time.
pub struct MatcherIter {
    pub args: Vec<String>,
    pub idx: usize,
    pub state: State,
    pub opts: Opts,
}

/// The iterator by value: the arguments and option set, where it
/// stands, and the three state flags.
pub struct IterModel {
    pub args: Seq<Seq<char>>,
    pub idx: nat,
    pub pos: bool,
    pub opt: bool,
    pub end: bool,
    pub opts: Seq<Opt>,
}

impl MatcherIter {
    pub open spec fn model(&self) -> IterModel {
        IterModel {
            args: Seq::new(self.args@.len(), |i: int| self.args@[i]@),
            idx: self.idx as nat,
            pos: self.state.spec_is_pos(),
            opt: self.state.spec_is_opt(),
            end: self.state.spec_is_end(),
            opts: self.opts@,
        }
    }

    /// When the argument carried no joined value, try the next
    /// argument: it is consumed as the value unless it is an option
    /// or the `--` marker.
    pub fn check_value_or_try_peek_next(&mut self, value: Option<String>) -> (r: Option<String>)
        ensures
            final(self).args == old(self).args,
            final(self).opts == old(self).opts,
            final(self).state == old(self).state,
            match value {
                Option::Some(v) => r == Option::Some(v) && final(self).idx == old(self).idx,
                Option::None => {
                    let m = old(self).model();
                    if m.idx < m.args.len() && !spec_is_end(m.args[m.idx as int])
                        && !spec_is_option(m.args[m.idx as int]) {
                        &&& r matches Some(v2) && v2@ == m.args[m.idx as int]
                        &&& final(self).idx == old(self).idx + 1
                    } else {
                        r is None && final(self).idx == old(self).idx
                    }
                },
            },
    {
        match value {
            Option::Some(v) => Option::Some(v),
            Option::None => {
                if self.idx < self.args.len() {
                    let arg = Arg::new(self.args[self.idx].clone());
                    if arg.is_end() || arg.is_option() {
                        return Option::None;
                    }
                    self.idx += 1;
                    Option::Some(arg.val)
                } else {
                    Option::None
                }
            },
        }
    }
}

/// What the peek step yields and how far it moves: a joined value is
/// kept as it is; otherwise the next argument serves as the value
/// unless it is an option or the `--` marker.
pub open spec fn spec_peek(args: Seq<Seq<char>>, i: nat, v: Option<Seq<char>>) -> (
    Option<Seq<char>>,
    nat,
) {
    match v {
        Option::Some(x) => (Option::Some(x), i),
        Option::None => {
            if i < args.len() && !spec_is_end(args[i as int]) && !spec_is_option(args[i as int]) {
                (Option::Some(args[i as int]), i + 1)
            } else {
                (Option::None, i)
            }
        },
    }
}

/// The option branch of one `next` step: the argument `a` was
/// consumed up to index `i` and starts an option while the state
/// allows options.
pub open spec fn spec_dispatch_option(m: IterModel, a: Seq<char>, i: nat) -> (
    IterModel,
    Option<MatchView>,
) {
    let (k, v) = spec_extract(a);
    match k {
        Option::None => (IterModel { idx: i, ..m }, Option::Some(MatchView::No(a))),
        Option::Some(key) => match spec_opts_get(m.opts, key) {
            Option::Some(o) => match o.1 {
                OptKind::NoArg => {
                    let (v2, i2) = spec_peek(m.args, i, v);
                    (IterModel { idx: i2, ..m }, Option::Some(MatchView::Key(key, v2)))
                },
                OptKind::Arg => {
                    let (v2, i2) = spec_peek(m.args, i, v);
                    match v2 {
                        Option::Some(val) => (
                            IterModel { idx: i2, ..m },
                            Option::Some(MatchView::KeyValue(key, val)),
                        ),
                        Option::None => (
                            IterModel { idx: i2, ..m },
                            Option::Some(MatchView::NoArg(key)),
                        ),
                    }
                },
            },
            Option::None => {
                let (v2, i2) = spec_peek(m.args, i, v);
                match v2 {
                    Option::Some(val) => (
                        IterModel { idx: i2, ..m },
                        Option::Some(MatchView::UnknownKeyValue(key, val)),
                    ),
                    Option::None => (
                        IterModel { idx: i2, ..m },
                        Option::Some(MatchView::UnknownKey(key)),
                    ),
                }
            },
        },
    }
}

/// The tail of one `next` step, once the current argument `a` is
/// settled: first option seen flips the state to options; then the
/// argument is positional, an option, or an extra positional.
pub open spec fn spec_dispatch(m: IterModel, a: Seq<char>, i: nat) -> (
    IterModel,
    Option<MatchView>,
) {
    let m1 = if spec_is_option(a) && !m.end {
        IterModel { pos: false, opt: true, ..m }
    } else {
        m
    };
    if m1.pos {
        (IterModel { idx: i, ..m1 }, Option::Some(MatchView::Positional(a)))
    } else if m1.opt && spec_is_option(a) {
        spec_dispatch_option(m1, a, i)
    } else {
        (IterModel { idx: i, ..m1 }, Option::Some(MatchView::ExtraPositional(a)))
    }
}

/// One whole `next` step: exhaustion, skipping a lone `-`, handling
/// `--`, then the dispatch above.
pub open spec fn spec_next(m: IterModel) -> (IterModel, Option<MatchView>) {
    if m.idx >= m.args.len() {
        (m, Option::None)
    } else {
        let a0 = m.args[m.idx as int];
        let i1 = m.idx + 1;
        if a0 == "-"@ && i1 >= m.args.len() {
            (IterModel { idx: i1, ..m }, Option::None)
        } else {
            let a1 = if a0 == "-"@ {
                m.args[i1 as int]
            } else {
                a0
            };
            let i2 = if a0 == "-"@ {
                i1 + 1
            } else {
                i1
            };
            if spec_is_end(a1) {
                let m_end = IterModel { pos: true, opt: false, end: true, ..m };
                if i2 >= m.args.len() {
                    (IterModel { idx: i2, ..m_end }, Option::None)
                } else {
                    spec_dispatch(m_end, m.args[i2 as int], i2 + 1)
                }
            } else {
                spec_dispatch(m, a1, i2)
            }
        }
    }
}

impl MatcherIter {
    /// Yield the next match, consuming the arguments it is made of;
    /// `None` once the arguments are exhausted.
    pub fn next(&mut self) -> (r: Option<Match>)
        ensures
            ({
                let (m2, ro) = spec_next(old(self).model());
                &&& final(self).model() == m2
                &&& match (r, ro) {
                    (Option::Some(x), Option::Some(v)) => x@ == v,
                    (Option::None, Option::None) => true,
                    _ => false,
                }
            }),
    {
        if self.idx >= self.args.len() {
            return Option::None;
        }
        let mut arg = Arg::new(self.args[self.idx].clone());
        self.idx += 1;
        if arg.val == String::from_str("-") {
            if self.idx >= self.args.len() {
                return Option::None;
            }
            arg = Arg::new(self.args[self.idx].clone());
            self.idx += 1;
        }
        if arg.is_end() {
            self.state.set_end();
            self.state.set_pos();
            if self.idx >= self.args.len() {
                return Option::None;
            }
            arg = Arg::new(self.args[self.idx].clone());
            self.idx += 1;
        }
        if arg.is_option() && !self.state.is_end() {
            self.state.set_opt();
        }
        if self.state.is_pos() {
            Option::Some(Match::Positional(arg.val))
        } else if self.state.is_opt() && arg.is_option() {
            let (key, value) = arg.extract_key_and_value();
            match key {
                Option::None => Option::Some(Match::No(arg.val)),
                Option::Some(key) => {
                    let kind: Option<OptKind> = match opts_get(&self.opts, &key) {
                        Option::Some(o) => Option::Some(o.1),
                        Option::None => Option::None,
                    };
                    match kind {
                        Option::Some(OptKind::NoArg) => {
                            let v2 = self.check_value_or_try_peek_next(value);
                            Option::Some(Match::Key(key, v2))
                        },
                        Option::Some(OptKind::Arg) => {
                            match self.check_value_or_try_peek_next(value) {
                                Option::Some(v) => Option::Some(Match::KeyValue(key, v)),
                                Option::None => Option::Some(Match::NoArg(key)),
                            }
                        },
                        Option::None => {
                            match self.check_value_or_try_peek_next(value) {
                                Option::Some(v) => Option::Some(Match::UnknownKeyValue(key, v)),
                                Option::None => Option::Some(Match::UnknownKey(key)),
                            }
                        },
                    }
                },
            }
        } else {
            Option::Some(Match::ExtraPositional(arg.val))
        }
    }
}

} // verus!
