//! Running commands: reading a command line into a program and its
//! arguments, execution options, and the messages of a streamed run.

use vstd::prelude::*;

use super::ScriptResult;
use crate::error::Error;
use crate::strmap::StringMap;
use crate::lexical::{trim, trim_exec};
use crate::text::{chars_of, concat2, owned, seq_view, string_from_chars};

verus! {

// ---------------------------------------------------------------------------
// Reading a command line
// ---------------------------------------------------------------------------

/// Where the reading of a command line stands: the words finished so far, the
/// word being read, and the open quote character, if any.
pub struct Scan {
    /// Finished words.
    pub parts: Seq<Seq<char>>,
    /// The word being read.
    pub cur: Seq<char>,
    /// The quote that is open, if any.
    pub quote: Option<char>,
}

/// Nothing read yet.
pub open spec fn scan_start() -> Scan {
    Scan { parts: Seq::empty(), cur: Seq::empty(), quote: None }
}

/// `st` with the word being read finished, if it is not empty.
pub open spec fn flush(st: Scan) -> Scan {
    if st.cur.len() > 0 {
        Scan { parts: st.parts.push(st.cur), cur: Seq::empty(), quote: st.quote }
    } else {
        st
    }
}

/// Reads one character. A quote (`"` or `'`) opens a quoted word, or closes
/// it when it is the quote that opened it; a space outside quotes ends a
/// word; every other character belongs to the word being read. Opening and
/// closing a quote ends the word before it.
pub open spec fn scan_step(st: Scan, c: char) -> Scan {
    if c == '"' || c == '\'' {
        match st.quote {
            Some(q) => if q == c {
                let f = flush(st);
                Scan { quote: None, ..f }
            } else {
                Scan { cur: st.cur.push(c), ..st }
            },
            None => {
                let f = flush(st);
                Scan { quote: Some(c), ..f }
            },
        }
    } else if c == ' ' && st.quote is None {
        flush(st)
    } else {
        Scan { cur: st.cur.push(c), ..st }
    }
}

/// Reads `t` after `st`.
pub open spec fn scan_from(st: Scan, t: Seq<char>) -> Scan
    decreases t.len(),
{
    if t.len() == 0 {
        st
    } else {
        scan_step(scan_from(st, t.drop_last()), t.last())
    }
}

/// The words of a command line: quoted or space-separated, empty words dropped.
pub open spec fn command_tokens(s: Seq<char>) -> Seq<Seq<char>> {
    flush(scan_from(scan_start(), s)).parts
}

/// Reading `a + b` is reading `a`, then `b`.
pub proof fn scan_from_append(st: Scan, a: Seq<char>, b: Seq<char>)
    ensures
        scan_from(st, a + b) == scan_from(scan_from(st, a), b),
    decreases b.len(),
{
    if b.len() == 0 {
        assert(a + b =~= a);
    } else {
        assert((a + b).drop_last() =~= a + b.drop_last());
        assert((a + b).last() == b.last());
        scan_from_append(st, a, b.drop_last());
    }
}


// ---------------------------------------------------------------------------
// Building a command line
// ---------------------------------------------------------------------------

/// `t` between double quotes.
pub open spec fn quoted(t: Seq<char>) -> Seq<char> {
    seq!['"'] + t + seq!['"']
}

/// The quoted arguments, each after a space.
pub open spec fn quoted_args(args: Seq<Seq<char>>) -> Seq<char>
    decreases args.len(),
{
    if args.len() == 0 {
        Seq::empty()
    } else {
        quoted_args(args.drop_last()) + seq![' '] + quoted(args.last())
    }
}

/// The command line that runs `program` with `args`: every word quoted.
pub open spec fn command_line(program: Seq<char>, args: Seq<Seq<char>>) -> Seq<char> {
    quoted(program) + quoted_args(args)
}

/// A word that reads back as itself when quoted: not empty, and without `"`.
pub open spec fn plain_word(t: Seq<char>) -> bool {
    t.len() > 0 && !t.contains('"')
}

/// The command line that runs `program` with `args`, each word in double quotes.
pub fn build_command_line(program: &str, args: &Vec<String>) -> (r: String)
    ensures
        r@ == command_line(program@, seq_view(args@)),
{
    let mut line = concat2("\"", program);
    line.append("\"");
    proof {
        reveal_strlit("\"");
    }
    assert(line@ =~= quoted(program@) + quoted_args(seq_view(args@).subrange(0, 0)));
    let mut i: usize = 0;
    while i < args.len()
        invariant
            i <= args.len(),
            line@ == quoted(program@) + quoted_args(seq_view(args@).subrange(0, i as int)),
        decreases args.len() - i,
    {
        proof {
            reveal_strlit(" \"");
            reveal_strlit("\"");
        }
        line.append(" \"");
        line.append(args[i].as_str());
        line.append("\"");
        let ghost sub = seq_view(args@).subrange(0, i + 1);
        assert(sub.drop_last() =~= seq_view(args@).subrange(0, i as int));
        assert(sub.last() == args@[i as int]@);
        i = i + 1;
        assert(line@ =~= quoted(program@) + quoted_args(seq_view(args@).subrange(0, i as int)));
    }
    assert(seq_view(args@).subrange(0, args.len() as int) =~= seq_view(args@));
    line
}

/// A state between words: nothing being read and no quote open.
pub open spec fn idle(st: Scan) -> bool {
    st.cur.len() == 0 && st.quote is None
}

proof fn scan_inside_quote(st: Scan, t: Seq<char>)
    requires
        st.quote == Some('"'),
        st.cur.len() == 0,
        !t.contains('"'),
    ensures
        scan_from(st, t) == (Scan { parts: st.parts, cur: t, quote: Some('"') }),
    decreases t.len(),
{
    if t.len() == 0 {
        assert(st.cur =~= t);
    } else {
        assert(!t.drop_last().contains('"')) by {
            if t.drop_last().contains('"') {
                let k = choose|k: int| 0 <= k < t.drop_last().len() && t.drop_last()[k] == '"';
                assert(t[k] == '"');
            }
        }
        scan_inside_quote(st, t.drop_last());
        assert(t.last() != '"') by {
            assert(t[t.len() - 1] == t.last());
        }
        assert(t.drop_last().push(t.last()) =~= t);
    }
}

proof fn scan_one(st: Scan, c: char)
    ensures
        scan_from(st, seq![c]) == scan_step(st, c),
{
    assert(seq![c].drop_last() =~= Seq::<char>::empty());
    assert(seq![c].last() == c);
    assert(scan_from(st, Seq::<char>::empty()) == st);
    assert(scan_from(st, seq![c]) == scan_step(scan_from(st, seq![c].drop_last()), c));
}

proof fn scan_quoted_word(st: Scan, t: Seq<char>)
    requires
        idle(st),
        plain_word(t),
    ensures
        scan_from(st, quoted(t)) == (Scan { parts: st.parts.push(t), cur: Seq::empty(), quote: None }),
{
    let open = Scan { parts: st.parts, cur: Seq::empty(), quote: Some('"') };
    assert(scan_from(st, seq!['"']) == open) by {
        scan_one(st, '"');
        assert(st.cur =~= Seq::<char>::empty());
    }
    scan_from_append(st, seq!['"'], t);
    scan_inside_quote(open, t);
    scan_from_append(st, seq!['"'] + t, seq!['"']);
    scan_one(scan_from(st, seq!['"'] + t), '"');
}

proof fn scan_quoted_args(st: Scan, args: Seq<Seq<char>>)
    requires
        idle(st),
        forall|i: int| 0 <= i < args.len() ==> plain_word(#[trigger] args[i]),
    ensures
        scan_from(st, quoted_args(args)) == (Scan { parts: st.parts + args, cur: Seq::empty(), quote: None }),
    decreases args.len(),
{
    if args.len() == 0 {
        assert(st.parts + args =~= st.parts);
        assert(st.cur =~= Seq::<char>::empty());
    } else {
        let init = args.drop_last();
        assert forall|i: int| 0 <= i < init.len() implies plain_word(#[trigger] init[i]) by {
            assert(init[i] == args[i]);
        }
        scan_quoted_args(st, init);
        let mid = Scan { parts: st.parts + init, cur: Seq::empty(), quote: None };
        scan_from_append(st, quoted_args(init), seq![' ']);
        scan_one(mid, ' ');
        assert(scan_from(mid, seq![' ']) == mid);
        scan_from_append(st, quoted_args(init) + seq![' '], quoted(args.last()));
        assert(plain_word(args.last())) by {
            assert(args[args.len() - 1] == args.last());
        }
        scan_quoted_word(mid, args.last());
        assert(init.push(args.last()) =~= args);
        assert((st.parts + init).push(args.last()) =~= st.parts + args);
    }
}

/// A word that needs no quoting: not empty, without spaces or quotes.
pub open spec fn bare_word(t: Seq<char>) -> bool {
    t.len() > 0 && !t.contains(' ') && !t.contains('"') && !t.contains('\'')
}

/// Words written one after another with one space between them.
pub open spec fn spaced(ws: Seq<Seq<char>>) -> Seq<char>
    decreases ws.len(),
{
    if ws.len() == 0 {
        Seq::empty()
    } else if ws.len() == 1 {
        ws[0]
    } else {
        spaced(ws.drop_last()) + seq![' '] + ws.last()
    }
}

proof fn scan_bare(st: Scan, t: Seq<char>)
    requires
        st.quote is None,
        !t.contains(' ') && !t.contains('"') && !t.contains('\''),
    ensures
        scan_from(st, t) == (Scan { parts: st.parts, cur: st.cur + t, quote: None }),
    decreases t.len(),
{
    if t.len() == 0 {
        assert(st.cur + t =~= st.cur);
    } else {
        assert(!t.drop_last().contains(' ') && !t.drop_last().contains('"')
            && !t.drop_last().contains('\'')) by {
            assert forall|k: int| 0 <= k < t.drop_last().len() implies t.drop_last()[k] == t[k] by {}
        }
        scan_bare(st, t.drop_last());
        assert(t.last() == t[t.len() - 1]);
        assert((st.cur + t.drop_last()).push(t.last()) =~= st.cur + t);
    }
}

proof fn scan_spaced(ws: Seq<Seq<char>>)
    requires
        ws.len() > 0,
        forall|i: int| 0 <= i < ws.len() ==> bare_word(#[trigger] ws[i]),
    ensures
        scan_from(scan_start(), spaced(ws)) == (Scan { parts: ws.drop_last(), cur: ws.last(), quote: None }),
    decreases ws.len(),
{
    if ws.len() == 1 {
        assert(bare_word(ws[0]));
        scan_bare(scan_start(), ws[0]);
        assert(Seq::<char>::empty() + ws[0] =~= ws[0]);
        assert(ws.drop_last() =~= Seq::<Seq<char>>::empty());
    } else {
        let init = ws.drop_last();
        assert forall|i: int| 0 <= i < init.len() implies bare_word(#[trigger] init[i]) by {
            assert(init[i] == ws[i]);
        }
        scan_spaced(init);
        let mid = Scan { parts: init.drop_last(), cur: init.last(), quote: None };
        assert(bare_word(init.last())) by {
            assert(init.last() == init[init.len() - 1]);
        }
        scan_from_append(scan_start(), spaced(init), seq![' ']);
        scan_one(mid, ' ');
        let after = Scan { parts: init.drop_last().push(init.last()), cur: Seq::empty(), quote: None };
        assert(scan_from(mid, seq![' ']) == after);
        assert(init.drop_last().push(init.last()) =~= init);
        scan_from_append(scan_start(), spaced(init) + seq![' '], ws.last());
        assert(bare_word(ws.last())) by {
            assert(ws.last() == ws[ws.len() - 1]);
        }
        scan_bare(after, ws.last());
        assert(Seq::<char>::empty() + ws.last() =~= ws.last());
    }
}

/// Words without spaces or quotes, written with one space between them,
/// read back as those words.
pub proof fn spaced_words_round_trip(ws: Seq<Seq<char>>)
    requires
        forall|i: int| 0 <= i < ws.len() ==> bare_word(#[trigger] ws[i]),
    ensures
        command_tokens(spaced(ws)) == ws,
{
    if ws.len() == 0 {
        assert(scan_from(scan_start(), Seq::<char>::empty()) == scan_start());
        assert(command_tokens(spaced(ws)) =~= ws);
    } else {
        scan_spaced(ws);
        assert(bare_word(ws.last())) by {
            assert(ws.last() == ws[ws.len() - 1]);
        }
        assert(ws.drop_last().push(ws.last()) =~= ws);
    }
}

/// A command line built by quoting every word reads back as those words,
/// provided no word is empty or holds a double quote.
pub proof fn command_line_round_trip(program: Seq<char>, args: Seq<Seq<char>>)
    requires
        plain_word(program),
        forall|i: int| 0 <= i < args.len() ==> plain_word(#[trigger] args[i]),
    ensures
        command_tokens(command_line(program, args)) == seq![program] + args,
{
    scan_quoted_word(scan_start(), program);
    let after = Scan { parts: seq![program], cur: Seq::empty(), quote: None };
    assert(scan_start().parts.push(program) =~= seq![program]);
    scan_from_append(scan_start(), quoted(program), quoted_args(args));
    scan_quoted_args(after, args);
}

// ---------------------------------------------------------------------------
// Options and streamed runs
// ---------------------------------------------------------------------------

/// Options of a command run.
#[derive(Debug)]
pub struct ExecuteOptions {
    /// Extra environment variables.
    pub env_vars: StringMap,
    /// The working directory.
    pub working_dir: Option<String>,
    /// The time limit in milliseconds; `None` for none.
    pub timeout: Option<u64>,
    /// Whether the run is asynchronous.
    pub async_execution: bool,
}

/// The default options: no variables, no directory, no limit, asynchronous.
pub open spec fn is_default_options(o: ExecuteOptions) -> bool {
    &&& o.env_vars@ == Map::<Seq<char>, Seq<char>>::empty()
    &&& o.working_dir is None
    &&& o.timeout is None
    &&& o.async_execution
}

impl Default for ExecuteOptions {
    fn default() -> (o: Self)
        ensures
            is_default_options(o),
    {
        ExecuteOptions {
            env_vars: StringMap::new(),
            working_dir: None,
            timeout: None,
            async_execution: true,
        }
    }
}

impl ExecuteOptions {
    /// The default options.
    pub fn new() -> (o: Self)
        ensures
            is_default_options(o),
    {
        Self::default()
    }

    /// The options with the variable `key` set to `value`.
    pub fn with_env_var(self, key: &str, value: &str) -> (o: Self)
        ensures
            o.env_vars@ == self.env_vars@.insert(key@, value@),
            o.working_dir == self.working_dir,
            o.timeout == self.timeout,
            o.async_execution == self.async_execution,
    {
        let mut o = self;
        o.env_vars.insert(owned(key), owned(value));
        o
    }

    /// The options with the working directory set.
    pub fn with_working_dir(self, dir: &str) -> (o: Self)
        ensures
            o.working_dir matches Some(d) && d@ == dir@,
            o.env_vars == self.env_vars,
            o.timeout == self.timeout,
            o.async_execution == self.async_execution,
    {
        let mut o = self;
        o.working_dir = Some(owned(dir));
        o
    }

    /// The options with the time limit set.
    pub fn with_timeout(self, timeout_ms: u64) -> (o: Self)
        ensures
            o.timeout == Some(timeout_ms),
            o.env_vars == self.env_vars,
            o.working_dir == self.working_dir,
            o.async_execution == self.async_execution,
    {
        let mut o = self;
        o.timeout = Some(timeout_ms);
        o
    }

    /// The options with asynchronous running set.
    pub fn with_async_execution(self, async_exec: bool) -> (o: Self)
        ensures
            o.async_execution == async_exec,
            o.env_vars == self.env_vars,
            o.working_dir == self.working_dir,
            o.timeout == self.timeout,
    {
        let mut o = self;
        o.async_execution = async_exec;
        o
    }
}

/// A message of a streamed run.
#[derive(Debug)]
pub enum StreamMessage {
    /// A line of standard output.
    Stdout(String),
    /// A line of standard error.
    Stderr(String),
    /// The process exited with this code.
    Exit(i32),
    /// Something went wrong.
    Error(String),
}

/// What waiting for a streamed run does with the next message.
#[derive(Debug)]
pub enum WaitStep {
    /// Keep waiting.
    Continue,
    /// Stop with this outcome.
    Done(Result<ScriptResult, Error>),
}

/// Waiting for a streamed run: an exit message ends it with its code (and no
/// output kept); an error message ends it with `Process error: ...`; the end
/// of the messages ends it with `Process did not exit properly`; output
/// lines are passed over.
pub fn wait_step(message: Option<StreamMessage>) -> (r: WaitStep)
    ensures
        match message {
            Some(StreamMessage::Exit(code)) => r matches WaitStep::Done(Ok(res)) && res.exit_code
                == code && res.stdout@.len() == 0 && res.stderr@.len() == 0 && res.duration_ms == 0,
            Some(StreamMessage::Error(e)) => r matches WaitStep::Done(Err(Error::Script(m))) && m@
                == "Process error: "@ + e@,
            None => r matches WaitStep::Done(Err(Error::Script(m))) && m@
                == "Process did not exit properly"@,
            _ => r is Continue,
        },
{
    match message {
        Some(StreamMessage::Exit(code)) => WaitStep::Done(
            Ok(ScriptResult::new(code, String::new(), String::new(), 0)),
        ),
        Some(StreamMessage::Error(e)) => WaitStep::Done(
            Err(Error::Script(concat2("Process error: ", e.as_str()))),
        ),
        None => WaitStep::Done(Err(Error::Script(owned("Process did not exit properly")))),
        _ => WaitStep::Continue,
    }
}

/// The outcome of asking to stop a streamed run: it cannot be stopped.
pub fn kill_outcome() -> (r: Result<(), Error>)
    ensures
        r matches Err(Error::Script(m)) && m@ == "Kill operation not supported in streaming mode"@,
{
    Err(Error::Script(owned("Kill operation not supported in streaming mode")))
}

/// Runs commands.
#[derive(Debug)]
pub struct ScriptExecutor;

impl ScriptExecutor {
    /// A command runner.
    pub fn new() -> (e: Self) {
        ScriptExecutor
    }

    /// Splits a command line into its program and arguments, honouring `"` and `'`
    /// quotes; an empty line gives an empty program and no arguments.
    pub fn parse_command(command: &str) -> (r: (String, Vec<String>))
        ensures
            command_tokens(command@).len() == 0 ==> r.0@ == Seq::<char>::empty() && r.1@.len() == 0,
            command_tokens(command@).len() > 0 ==> r.0@ == command_tokens(command@)[0] && seq_view(
                r.1@,
            ) == command_tokens(command@).skip(1),
    {
        let s = chars_of(command);
        let mut parts: Vec<Vec<char>> = Vec::new();
        let mut cur: Vec<char> = Vec::new();
        let mut quote: Option<char> = None;
        let mut i: usize = 0;
        assert(s@.subrange(0, 0) =~= Seq::<char>::empty());
        assert(parts@.map_values(|v: Vec<char>| v@) =~= Seq::<Seq<char>>::empty());
        assert(cur@ =~= Seq::<char>::empty());
        while i < s.len()
            invariant
                i <= s.len(),
                s@ == command@,
                scan_from(scan_start(), s@.subrange(0, i as int)) == (Scan {
                    parts: parts@.map_values(|v: Vec<char>| v@),
                    cur: cur@,
                    quote,
                }),
            decreases s.len() - i,
        {
            let ch = s[i];
            let ghost st = scan_from(scan_start(), s@.subrange(0, i as int));
            assert(s@.subrange(0, i + 1).drop_last() =~= s@.subrange(0, i as int));
            assert(s@.subrange(0, i + 1).last() == ch);
            let ghost pv = parts@.map_values(|v: Vec<char>| v@);
            if ch == '"' || ch == '\'' {
                match quote {
                    Some(q) => {
                        if q == ch {
                            quote = None;
                            if cur.len() > 0 {
                                parts.push(cur);
                                cur = Vec::new();
                                assert(parts@.map_values(|v: Vec<char>| v@) =~= pv.push(st.cur));
                            }
                        } else {
                            cur.push(ch);
                        }
                    },
                    None => {
                        quote = Some(ch);
                        if cur.len() > 0 {
                            parts.push(cur);
                            cur = Vec::new();
                            assert(parts@.map_values(|v: Vec<char>| v@) =~= pv.push(st.cur));
                        }
                    },
                }
            } else if ch == ' ' && quote.is_none() {
                if cur.len() > 0 {
                    parts.push(cur);
                    cur = Vec::new();
                    assert(parts@.map_values(|v: Vec<char>| v@) =~= pv.push(st.cur));
                }
            } else {
                cur.push(ch);
            }
            i = i + 1;
        }
        assert(s@.subrange(0, s.len() as int) =~= s@);
        let ghost pv = parts@.map_values(|v: Vec<char>| v@);
        if cur.len() > 0 {
            parts.push(cur);
            assert(parts@.map_values(|v: Vec<char>| v@) =~= pv.push(flush(scan_from(scan_start(), s@)).parts.last()));
        }
        let ghost toks = command_tokens(command@);
        assert(parts@.map_values(|v: Vec<char>| v@) =~= toks);
        if parts.len() == 0 {
            return (String::new(), Vec::new());
        }
        let program = string_from_chars(&parts[0]);
        assert(program@ == toks[0]);
        let mut args: Vec<String> = Vec::new();
        let mut k: usize = 1;
        while k < parts.len()
            invariant
                1 <= k <= parts.len(),
                toks == parts@.map_values(|v: Vec<char>| v@),
                seq_view(args@) == toks.subrange(1, k as int),
            decreases parts.len() - k,
        {
            let a = string_from_chars(&parts[k]);
            assert(a@ == toks[k as int]);
            let ghost prev = seq_view(args@);
            args.push(a);
            assert(seq_view(args@) =~= prev.push(toks[k as int]));
            assert(toks.subrange(1, k + 1) =~= toks.subrange(1, k as int).push(toks[k as int]));
            k = k + 1;
            assert(seq_view(args@) =~= toks.subrange(1, k as int));
        }
        assert(toks.subrange(1, parts.len() as int) =~= toks.skip(1));
        (program, args)
    }
}

impl ScriptExecutor {
    /// The path a command lookup (`which` or `where`) printed: its output
    /// without surrounding white space, where the lookup succeeded.
    pub fn found_command_path(success: bool, stdout: &str) -> (r: Option<String>)
        ensures
            success ==> (r matches Some(p) && p@ == trim(stdout@)),
            !success ==> r is None,
    {
        if success {
            let t = trim_exec(&chars_of(stdout));
            Some(string_from_chars(&t))
        } else {
            None
        }
    }
}

impl Default for ScriptExecutor {
    fn default() -> (e: Self) {
        ScriptExecutor
    }
}

} // verus!
