//! Quoting of command-line arguments for the platform's argument splitter.
//!
//! An argument that is empty, or holds whitespace or a double quote, is put
//! in double quotes. Inside the quotes every `"` is escaped as `\"`, and each
//! run of backslashes that stands right before a `"` (or before the closing
//! quote) is doubled, so that the splitter hands back the text as it was.
use vstd::prelude::*;
use vstd::string::*;
use crate::text::{backslashes, join, join_spec, join_strings, push_backslashes, push_char, views};

verus! {

/// Whitespace as the argument splitter sees it.
pub open spec fn is_space(c: char) -> bool {
    c == ' ' || c == '\t' || c == '\n' || c == '\x0b'
}

/// Whether the argument has to be put in quotes.
pub open spec fn needs_quotes(s: Seq<char>) -> bool {
    s.len() == 0 || exists|i: int| 0 <= i < s.len() && (is_space(s[i]) || s[i] == '"')
}

/// The number of backslashes that stand right before position `i`.
pub open spec fn run_before(s: Seq<char>, i: int) -> nat
    decreases i,
{
    if i <= 0 || i > s.len() {
        0
    } else if s[i - 1] == '\\' {
        run_before(s, i - 1) + 1
    } else {
        0
    }
}

/// What character `i` becomes inside quotes.
pub open spec fn escaped_char(s: Seq<char>, i: int) -> Seq<char> {
    if s[i] == '"' {
        backslashes(run_before(s, i) + 1) + seq!['"']
    } else {
        seq![s[i]]
    }
}

/// The first `n` characters, escaped for use inside quotes.
pub open spec fn escaped_prefix(s: Seq<char>, n: nat) -> Seq<char>
    decreases n,
{
    if n == 0 {
        Seq::empty()
    } else {
        escaped_prefix(s, (n - 1) as nat) + escaped_char(s, n - 1)
    }
}

/// The quoted form of one argument.
pub open spec fn quote_spec(s: Seq<char>) -> Seq<char> {
    if needs_quotes(s) {
        seq!['"'] + escaped_prefix(s, s.len()) + backslashes(run_before(s, s.len() as int)) + seq!['"']
    } else {
        s
    }
}

/// Whether the argument is empty or holds whitespace or a double quote.
pub fn arg_needs_quotes(s: &str) -> (r: bool)
    ensures
        r == needs_quotes(s@),
{
    let n = s.unicode_len();
    if n == 0 {
        return true;
    }
    let mut i: usize = 0;
    while i < n
        invariant
            i <= n,
            n == s@.len(),
            forall|j: int| 0 <= j < i ==> !(is_space(s@[j]) || s@[j] == '"'),
        decreases n - i,
    {
        let c = s.get_char(i);
        if c == ' ' || c == '\t' || c == '\n' || c == '\x0b' || c == '"' {
            return true;
        }
        i = i + 1;
    }
    false
}

/// Quotes one argument so that the platform's splitter reads it back as it is.
pub fn quote_arg(s: &str) -> (r: String)
    ensures
        r@ == quote_spec(s@),
{
    if !arg_needs_quotes(s) {
        return String::from_str(s);
    }
    let n = s.unicode_len();
    let mut out = String::new();
    push_char(&mut out, '"');
    let mut run: usize = 0;
    let mut i: usize = 0;
    while i < n
        invariant
            i <= n,
            n == s@.len(),
            run as nat == run_before(s@, i as int),
            run <= i,
            out@ == seq!['"'] + escaped_prefix(s@, i as nat),
        decreases n - i,
    {
        let c = s.get_char(i);
        proof {
            assert(escaped_prefix(s@, (i + 1) as nat) == escaped_prefix(s@, i as nat) + escaped_char(s@, i as int));
        }
        if c == '"' {
            push_backslashes(&mut out, run + 1);
            push_char(&mut out, '"');
            run = 0;
        } else {
            push_char(&mut out, c);
            if c == '\\' {
                run = run + 1;
            } else {
                run = 0;
            }
        }
        i = i + 1;
        assert(out@ =~= seq!['"'] + escaped_prefix(s@, i as nat));
    }
    push_backslashes(&mut out, run);
    push_char(&mut out, '"');
    assert(out@ =~= quote_spec(s@));
    out
}

/// Quotes each argument.
pub fn quote_args(args: &Vec<String>) -> (r: Vec<String>)
    ensures
        r@.len() == args@.len(),
        forall|i: int| 0 <= i < args@.len() ==> (#[trigger] r@[i])@ == quote_spec(args@[i]@),
{
    let mut out: Vec<String> = Vec::new();
    let mut i: usize = 0;
    while i < args.len()
        invariant
            i <= args@.len(),
            out@.len() == i,
            forall|j: int| 0 <= j < i ==> (#[trigger] out@[j])@ == quote_spec(args@[j]@),
        decreases args.len() - i,
    {
        out.push(quote_arg(args[i].as_str()));
        i = i + 1;
    }
    out
}


/// The arguments, each quoted, joined with spaces into one command line.
pub fn quote_command_line(args: &Vec<String>) -> (r: String)
    ensures
        r@ == quoted_line(views(args@)),
{
    let quoted = quote_args(args);
    assert(views(quoted@) =~= Seq::new(views(args@).len(), |i: int| quote_spec(views(args@)[i])));
    join_strings(&quoted, " ")
}

} // verus!

verus! {

/// The state of the platform's argument splitter part way through a
/// command line.
pub struct SplitState {
    /// The arguments read so far.
    pub args: Seq<Seq<char>>,
    /// The argument being read, without the backslashes still pending.
    pub cur: Seq<char>,
    /// Backslashes read but not yet placed (what they mean depends on
    /// whether a `"` follows).
    pub pending: nat,
    pub in_arg: bool,
    pub in_quotes: bool,
}

pub open spec fn idle_state(args: Seq<Seq<char>>) -> SplitState {
    SplitState { args, cur: Seq::empty(), pending: 0, in_arg: false, in_quotes: false }
}

/// One character of the splitter: `2n` backslashes before a `"` give `n`
/// backslashes and the quote opens or closes quoting, `2n + 1` give `n`
/// backslashes and a literal `"`; other backslashes are literal; a space or
/// tab outside quotes ends the argument.
pub open spec fn split_step(s: SplitState, c: char) -> SplitState {
    if c == '\\' {
        SplitState { args: s.args, cur: s.cur, pending: s.pending + 1, in_arg: true, in_quotes: s.in_quotes }
    } else if c == '"' {
        let cur = s.cur + backslashes(s.pending / 2);
        if s.pending % 2 == 1 {
            SplitState { args: s.args, cur: cur.push('"'), pending: 0, in_arg: true, in_quotes: s.in_quotes }
        } else {
            SplitState { args: s.args, cur, pending: 0, in_arg: true, in_quotes: !s.in_quotes }
        }
    } else if (c == ' ' || c == '\t') && !s.in_quotes {
        let cur = s.cur + backslashes(s.pending);
        idle_state(if s.in_arg { s.args.push(cur) } else { s.args })
    } else {
        SplitState {
            args: s.args,
            cur: s.cur + backslashes(s.pending) + seq![c],
            pending: 0,
            in_arg: true,
            in_quotes: s.in_quotes,
        }
    }
}

pub open spec fn split_run(s: SplitState, text: Seq<char>) -> SplitState
    decreases text.len(),
{
    if text.len() == 0 {
        s
    } else {
        split_run(split_step(s, text[0]), text.drop_first())
    }
}

pub open spec fn split_finish(s: SplitState) -> Seq<Seq<char>> {
    if s.in_arg {
        s.args.push(s.cur + backslashes(s.pending))
    } else {
        s.args
    }
}

/// The arguments that the platform reads from a command line.
pub open spec fn split_command_line(text: Seq<char>) -> Seq<Seq<char>> {
    split_finish(split_run(idle_state(Seq::empty()), text))
}

/// Arguments quoted one by one and joined with spaces.
pub open spec fn quoted_line(args: Seq<Seq<char>>) -> Seq<char> {
    join(Seq::new(args.len(), |i: int| quote_spec(args[i])), " "@)
}

proof fn lemma_run_concat(s: SplitState, a: Seq<char>, b: Seq<char>)
    ensures
        split_run(s, a + b) == split_run(split_run(s, a), b),
    decreases a.len(),
{
    if a.len() == 0 {
        assert(a + b =~= b);
    } else {
        assert((a + b)[0] == a[0]);
        assert((a + b).drop_first() =~= a.drop_first() + b);
        lemma_run_concat(split_step(s, a[0]), a.drop_first(), b);
    }
}

proof fn lemma_run_backslashes(s: SplitState, k: nat)
    ensures
        split_run(s, backslashes(k)) == (SplitState {
            args: s.args,
            cur: s.cur,
            pending: s.pending + k,
            in_arg: s.in_arg || k > 0,
            in_quotes: s.in_quotes,
        }),
    decreases k,
{
    if k == 0 {
        assert(split_run(s, backslashes(0)) == s);
    } else {
        assert(backslashes(k) =~= backslashes((k - 1) as nat) + seq!['\\']);
        lemma_run_concat(s, backslashes((k - 1) as nat), seq!['\\']);
        lemma_run_backslashes(s, (k - 1) as nat);
        let t = split_run(s, backslashes((k - 1) as nat));
        assert(seq!['\\'].drop_first() =~= Seq::<char>::empty());
        assert(split_run(t, seq!['\\']) == split_run(split_step(t, '\\'), Seq::<char>::empty()));
    }
}

proof fn lemma_run_before(s: Seq<char>, i: int)
    requires
        0 <= i <= s.len(),
    ensures
        run_before(s, i) <= i,
        backslashes(run_before(s, i)) =~= s.subrange(i - run_before(s, i), i),
    decreases i,
{
    if i > 0 && s[i - 1] == '\\' {
        lemma_run_before(s, i - 1);
        let k = run_before(s, i - 1);
        assert(s.subrange(i - (k + 1), i) =~= s.subrange(i - 1 - k, i - 1).push(s[i - 1]));
    }
}

proof fn lemma_run_one(s: SplitState, c: char)
    ensures
        split_run(s, seq![c]) == split_step(s, c),
{
    assert(seq![c].drop_first() =~= Seq::<char>::empty());
    assert(seq![c][0] == c);
    assert(split_run(split_step(s, c), Seq::<char>::empty()) == split_step(s, c));
}

/// Reading the escaped form of a prefix inside quotes.
proof fn lemma_run_escaped(args: Seq<Seq<char>>, a: Seq<char>, i: nat)
    requires
        i <= a.len(),
    ensures
        split_run(
            SplitState { args, cur: Seq::empty(), pending: 0, in_arg: true, in_quotes: true },
            escaped_prefix(a, i),
        ) == (SplitState {
            args,
            cur: a.take(i - run_before(a, i as int)),
            pending: run_before(a, i as int),
            in_arg: true,
            in_quotes: true,
        }),
    decreases i,
{
    let s0 = SplitState { args, cur: Seq::empty(), pending: 0, in_arg: true, in_quotes: true };
    if i == 0 {
        assert(a.take(0) =~= Seq::<char>::empty());
        assert(split_run(s0, escaped_prefix(a, 0)) == s0);
    } else {
        let j = (i - 1) as nat;
        lemma_run_escaped(args, a, j);
        lemma_run_before(a, j as int);
        let rb = run_before(a, j as int);
        let t = split_run(s0, escaped_prefix(a, j));
        lemma_run_concat(s0, escaped_prefix(a, j), escaped_char(a, j as int));
        if a[j as int] == '"' {
            lemma_run_concat(t, backslashes(rb + 1), seq!['"']);
            lemma_run_backslashes(t, rb + 1);
            let u = split_run(t, backslashes(rb + 1));
            lemma_run_one(u, '"');
            assert((rb + rb + 1) / 2 == rb);
            assert((rb + rb + 1) % 2 == 1);
            assert(u.cur == a.take(j - rb));
            assert(u.pending == rb + rb + 1);
            assert((a.take(j - rb) + backslashes(rb)).push('"') =~= a.take(i as int));
            assert(run_before(a, i as int) == 0);
        } else {
            lemma_run_one(t, a[j as int]);
            if a[j as int] == '\\' {
                assert(a.take(i - run_before(a, i as int)) =~= a.take(j - rb));
            } else {
                assert(run_before(a, i as int) == 0);
                assert(a.take(j - rb) + backslashes(rb) + seq![a[j as int]] =~= a.take(i as int));
            }
        }
    }
}

/// Reading an argument that needs no quotes.
proof fn lemma_run_plain(args: Seq<Seq<char>>, a: Seq<char>, i: nat)
    requires
        i <= a.len(),
        !needs_quotes(a),
    ensures
        split_run(idle_state(args), a.take(i as int)) == (SplitState {
            args,
            cur: a.take(i - run_before(a, i as int)),
            pending: run_before(a, i as int),
            in_arg: i > 0,
            in_quotes: false,
        }),
    decreases i,
{
    if i == 0 {
        assert(a.take(0) =~= Seq::<char>::empty());
        assert(split_run(idle_state(args), a.take(0)) == idle_state(args));
    } else {
        let j = (i - 1) as nat;
        lemma_run_plain(args, a, j);
        lemma_run_before(a, j as int);
        let rb = run_before(a, j as int);
        let t = split_run(idle_state(args), a.take(j as int));
        assert(a.take(i as int) =~= a.take(j as int) + seq![a[j as int]]);
        lemma_run_concat(idle_state(args), a.take(j as int), seq![a[j as int]]);
        lemma_run_one(t, a[j as int]);
        assert(!(is_space(a[j as int]) || a[j as int] == '"'));
        if a[j as int] == '\\' {
            assert(a.take(i - run_before(a, i as int)) =~= a.take(j - rb));
        } else {
            assert(a.take(j - rb) + backslashes(rb) + seq![a[j as int]] =~= a.take(i as int));
        }
    }
}

/// What reading one quoted argument leaves: the argument is complete, up to
/// backslashes that are still pending.
pub open spec fn holds_arg(s: SplitState, args: Seq<Seq<char>>, a: Seq<char>) -> bool {
    &&& s.args == args
    &&& s.in_arg
    &&& !s.in_quotes
    &&& s.cur + backslashes(s.pending) == a
}

proof fn lemma_run_quoted(args: Seq<Seq<char>>, a: Seq<char>)
    ensures
        holds_arg(split_run(idle_state(args), quote_spec(a)), args, a),
{
    if needs_quotes(a) {
        let n = a.len();
        let rb = run_before(a, n as int);
        let open = SplitState { args, cur: Seq::empty(), pending: 0, in_arg: true, in_quotes: true };
        let body = escaped_prefix(a, n);
        assert(quote_spec(a) == seq!['"'] + body + backslashes(rb) + seq!['"']);
        lemma_run_concat(idle_state(args), seq!['"'] + body + backslashes(rb), seq!['"']);
        lemma_run_concat(idle_state(args), seq!['"'] + body, backslashes(rb));
        lemma_run_concat(idle_state(args), seq!['"'], body);
        lemma_run_one(idle_state(args), '"');
        assert(split_step(idle_state(args), '"') == open);
        lemma_run_escaped(args, a, n);
        lemma_run_before(a, n as int);
        let t = split_run(open, body);
        lemma_run_backslashes(t, rb);
        let u = split_run(t, backslashes(rb));
        lemma_run_one(u, '"');
        assert((rb + rb) / 2 == rb);
        assert((rb + rb) % 2 == 0);
        assert(a.take(n - rb) + backslashes(rb) =~= a);
        assert(a.take(n - rb) + backslashes(rb) + backslashes(0) =~= a);
    } else {
        let n = a.len();
        lemma_run_plain(args, a, n);
        lemma_run_before(a, n as int);
        assert(a.take(n as int) =~= a);
        assert(a.take(n - run_before(a, n as int)) + backslashes(run_before(a, n as int)) =~= a);
    }
}

proof fn lemma_run_separator(s: SplitState, args: Seq<Seq<char>>, a: Seq<char>)
    requires
        holds_arg(s, args, a),
    ensures
        split_run(s, seq![' ']) == idle_state(args.push(a)),
{
    lemma_run_one(s, ' ');
}

proof fn lemma_run_joined(args: Seq<Seq<char>>, n: nat)
    requires
        1 <= n <= args.len(),
    ensures
        holds_arg(
            split_run(idle_state(Seq::empty()), join_spec(Seq::new(args.len(), |i: int| quote_spec(args[i])), seq![' '], n)),
            args.take(n - 1),
            args[n - 1],
        ),
    decreases n,
{
    let qs = Seq::new(args.len(), |i: int| quote_spec(args[i]));
    if n == 1 {
        assert(args.take(0) =~= Seq::<Seq<char>>::empty());
        lemma_run_quoted(Seq::empty(), args[0]);
    } else {
        let m = (n - 1) as nat;
        lemma_run_joined(args, m);
        let prev = join_spec(qs, seq![' '], m);
        let s = split_run(idle_state(Seq::empty()), prev);
        lemma_run_concat(idle_state(Seq::empty()), prev + seq![' '], qs[n - 1]);
        lemma_run_concat(idle_state(Seq::empty()), prev, seq![' ']);
        lemma_run_separator(s, args.take(m - 1), args[m - 1]);
        assert(args.take(m - 1).push(args[m - 1]) =~= args.take(n - 1));
        lemma_run_quoted(args.take(n - 1), args[n - 1]);
    }
}

/// Quoting is undone by the platform's splitter: the arguments, each quoted
/// and joined with spaces, are read back exactly as they were.
pub proof fn lemma_quote_round_trip(args: Seq<Seq<char>>)
    ensures
        split_command_line(quoted_line(args)) == args,
{
    reveal_strlit(" ");
    assert(" "@ =~= seq![' ']);
    let n = args.len();
    if n == 0 {
        assert(quoted_line(args) == Seq::<char>::empty());
        assert(split_run(idle_state(Seq::empty()), Seq::<char>::empty()) == idle_state(Seq::empty()));
        assert(args =~= Seq::<Seq<char>>::empty());
    } else {
        lemma_run_joined(args, n);
        assert(args.take(n - 1).push(args[n - 1]) =~= args);
    }
}

} // verus!
