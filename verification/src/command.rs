//! The invocation descriptor and its diagnostic description.

use vstd::prelude::*;
use vstd::utf8::encode_utf8;
use crate::text::{debug_quoted, debug_text};

verus! {

/// One environment override: the variable is set to `value`, or removed for
/// the child where `value` is `None`.
pub struct EnvOverride {
    pub key: String,
    pub value: Option<String>,
}

/// One subprocess launch request. Pure data: nothing is validated before the
/// process is started.
pub struct Command {
    pub program: String,
    pub args: Vec<String>,
    pub envs: Vec<EnvOverride>,
    pub current_dir: Option<String>,
}

/// The mathematical content of a `Command`.
pub struct CommandView {
    pub program: Seq<char>,
    pub args: Seq<Seq<char>>,
    pub envs: Seq<(Seq<char>, Option<Seq<char>>)>,
    pub current_dir: Option<Seq<char>>,
}

/// The text of an optional string.
pub open spec fn option_view(o: Option<String>) -> Option<Seq<char>> {
    match o {
        Some(s) => Some(s@),
        None => None,
    }
}

/// The texts of a sequence of strings.
pub open spec fn texts(items: Seq<String>) -> Seq<Seq<char>> {
    Seq::new(items.len(), |i: int| items[i]@)
}

impl View for EnvOverride {
    type V = (Seq<char>, Option<Seq<char>>);

    open spec fn view(&self) -> Self::V {
        (self.key@, option_view(self.value))
    }
}

impl View for Command {
    type V = CommandView;

    open spec fn view(&self) -> CommandView {
        CommandView {
            program: self.program@,
            args: texts(self.args@),
            envs: Seq::new(self.envs@.len(), |i: int| self.envs@[i]@),
            current_dir: option_view(self.current_dir),
        }
    }
}

/// The order of bytes: `a` stands before `b` where it is a proper prefix of
/// `b`, or holds the smaller byte at the first place where the two differ.
pub open spec fn bytes_less(a: Seq<u8>, b: Seq<u8>) -> bool
    decreases a.len(),
{
    if b.len() == 0 {
        false
    } else if a.len() == 0 {
        true
    } else if a[0] != b[0] {
        a[0] < b[0]
    } else {
        bytes_less(a.skip(1), b.skip(1))
    }
}

/// The order of variable names: that of their bytes.
pub open spec fn key_less(a: Seq<char>, b: Seq<char>) -> bool {
    bytes_less(encode_utf8(a), encode_utf8(b))
}

/// The overrides form a mapping, written down in the order of its keys: each
/// key stands before every key that follows it.
pub open spec fn envs_in_order(envs: Seq<(Seq<char>, Option<Seq<char>>)>) -> bool {
    forall|i: int, j: int| 0 <= i < j < envs.len() ==> key_less(#[trigger] envs[i].0, #[trigger] envs[j].0)
}

/// How an optional text is shown: `None`, or `Some(..)` around the quoted text.
pub open spec fn option_text(o: Option<Seq<char>>) -> Seq<char> {
    match o {
        Some(s) => "Some("@ + debug_text(s) + ")"@,
        None => "None"@,
    }
}

/// How one environment override is shown: a pair of the quoted key and the
/// optional value.
pub open spec fn env_text(e: (Seq<char>, Option<Seq<char>>)) -> Seq<char> {
    "("@ + debug_text(e.0) + ", "@ + option_text(e.1) + ")"@
}

/// The parts, with a comma and a space between each two.
pub open spec fn comma_joined(parts: Seq<Seq<char>>) -> Seq<char>
    decreases parts.len(),
{
    if parts.len() == 0 {
        Seq::empty()
    } else if parts.len() == 1 {
        parts[0]
    } else {
        comma_joined(parts.drop_last()) + ", "@ + parts.last()
    }
}

/// How a list is shown: the joined parts between square brackets.
pub open spec fn list_text(parts: Seq<Seq<char>>) -> Seq<char> {
    "["@ + comma_joined(parts) + "]"@
}

/// The quoted form of each argument.
pub open spec fn args_parts(args: Seq<Seq<char>>) -> Seq<Seq<char>> {
    Seq::new(args.len(), |i: int| debug_text(args[i]))
}

/// The shown form of each environment override.
pub open spec fn envs_parts(envs: Seq<(Seq<char>, Option<Seq<char>>)>) -> Seq<Seq<char>> {
    Seq::new(envs.len(), |i: int| env_text(envs[i]))
}

/// The diagnostic description of an invocation:
/// `program = <p>, args = <a>, envs = <e>, current_dir = <d>`.
pub open spec fn description_text(c: CommandView) -> Seq<char> {
    "program = "@ + debug_text(c.program) + ", args = "@ + list_text(args_parts(c.args))
        + ", envs = "@ + list_text(envs_parts(c.envs)) + ", current_dir = "@ + option_text(
        c.current_dir,
    )
}

/// Shows an optional string as `option_text` says.
pub fn option_string(o: &Option<String>) -> (r: String)
    ensures
        r@ == option_text(option_view(*o)),
{
    match o {
        Some(s) => {
            let mut out = String::from_str("Some(");
            out.append(debug_quoted(s.as_str()).as_str());
            out.append(")");
            out
        },
        None => String::from_str("None"),
    }
}

/// Shows one environment override as `env_text` says.
pub fn env_string(e: &EnvOverride) -> (r: String)
    ensures
        r@ == env_text(e@),
{
    let mut out = String::from_str("(");
    out.append(debug_quoted(e.key.as_str()).as_str());
    out.append(", ");
    out.append(option_string(&e.value).as_str());
    out.append(")");
    out
}

/// Shows a list of already rendered parts between square brackets.
pub fn list_string(parts: &Vec<String>) -> (r: String)
    ensures
        r@ == list_text(texts(parts@)),
{
    let ghost all = texts(parts@);
    let mut joined = String::new();
    let mut i: usize = 0;
    while i < parts.len()
        invariant
            i <= parts.len(),
            all == texts(parts@),
            joined@ == comma_joined(all.take(i as int)),
        decreases parts.len() - i,
    {
        proof {
            assert(all.take(i + 1).drop_last() =~= all.take(i as int));
            assert(all.take(i + 1).last() == parts@[i as int]@);
        }
        if i == 0 {
            joined = String::from_str(parts[i].as_str());
        } else {
            joined.append(", ");
            joined.append(parts[i].as_str());
        }
        i = i + 1;
    }
    proof {
        assert(all.take(i as int) =~= all);
    }
    let mut out = String::from_str("[");
    out.append(joined.as_str());
    out.append("]");
    out
}

/// A read-only description of an invocation.
pub struct CommandDescription<'a> {
    pub cmd: &'a Command,
}

impl<'a> CommandDescription<'a> {
    /// The description as text. It is total and depends on the invocation
    /// alone.
    pub fn to_text(&self) -> (r: String)
        ensures
            r@ == description_text(self.cmd@),
    {
        let cmd = self.cmd;
        let mut args: Vec<String> = Vec::new();
        let mut i: usize = 0;
        while i < cmd.args.len()
            invariant
                i <= cmd.args.len(),
                args@.len() == i,
                forall|j: int| 0 <= j < i ==> args@[j]@ == debug_text(#[trigger] cmd.args@[j]@),
            decreases cmd.args.len() - i,
        {
            args.push(debug_quoted(cmd.args[i].as_str()));
            i = i + 1;
        }
        let mut envs: Vec<String> = Vec::new();
        let mut k: usize = 0;
        while k < cmd.envs.len()
            invariant
                k <= cmd.envs.len(),
                envs@.len() == k,
                forall|j: int| 0 <= j < k ==> envs@[j]@ == env_text(#[trigger] cmd.envs@[j]@),
            decreases cmd.envs.len() - k,
        {
            envs.push(env_string(&cmd.envs[k]));
            k = k + 1;
        }
        proof {
            assert(texts(args@) =~= args_parts(cmd@.args));
            assert(texts(envs@) =~= envs_parts(cmd@.envs));
        }
        let mut out = String::from_str("program = ");
        out.append(debug_quoted(cmd.program.as_str()).as_str());
        out.append(", args = ");
        out.append(list_string(&args).as_str());
        out.append(", envs = ");
        out.append(list_string(&envs).as_str());
        out.append(", current_dir = ");
        out.append(option_string(&cmd.current_dir).as_str());
        out
    }
}

impl Command {
    /// A descriptor is well formed where its environment overrides are a
    /// mapping in the order of its keys.
    pub open spec fn wf(&self) -> bool {
        envs_in_order(self@.envs)
    }

    /// Whether this descriptor is well formed.
    pub fn is_wf(&self) -> (r: bool)
        ensures
            r == self.wf(),
    {
        let mut k: usize = 1;
        while k < self.envs.len()
            invariant
                1 <= k,
                forall|i: int, j: int|
                    0 <= i < j < k && j < self.envs@.len() ==> key_less(
                        #[trigger] self@.envs[i].0,
                        #[trigger] self@.envs[j].0,
                    ),
            decreases self.envs.len() - k,
        {
            let before = self.envs[k - 1].key.as_str().as_bytes();
            let after = self.envs[k].key.as_str().as_bytes();
            if !bytes_before(before, after) {
                proof {
                    assert(!key_less(self@.envs[k - 1].0, self@.envs[k as int].0));
                }
                return false;
            }
            proof {
                assert forall|i: int| 0 <= i < k implies key_less(
                    #[trigger] self@.envs[i].0,
                    self@.envs[k as int].0,
                ) by {
                    if i < k - 1 {
                        bytes_less_is_transitive(
                            encode_utf8(self@.envs[i].0),
                            encode_utf8(self@.envs[k - 1].0),
                            encode_utf8(self@.envs[k as int].0),
                        );
                    }
                }
            }
            k = k + 1;
        }
        true
    }

    /// The diagnostic description of this invocation.
    pub fn description(&self) -> (r: CommandDescription<'_>)
        ensures
            r.cmd == self,
    {
        CommandDescription { cmd: self }
    }

    /// Appends arguments, consuming the descriptor and returning the updated
    /// one.
    pub fn args_(self, args: Vec<String>) -> (r: Command)
        ensures
            r@ == (CommandView { args: self@.args + texts(args@), ..self@ }),
            self.wf() ==> r.wf(),
    {
        let mut this = self;
        let mut more = args;
        this.args.append(&mut more);
        proof {
            assert(texts(this.args@) =~= self@.args + texts(args@));
            assert(this@.envs =~= self@.envs);
        }
        this
    }
}

/// A descriptor for `program`, with no arguments, no environment overrides
/// and the working directory of the parent.
pub fn cmd(program: &str) -> (r: Command)
    ensures
        r@ == (CommandView {
            program: program@,
            args: Seq::empty(),
            envs: Seq::empty(),
            current_dir: None,
        }),
        r.wf(),
{
    let r = Command {
        program: String::from_str(program),
        args: Vec::new(),
        envs: Vec::new(),
        current_dir: None,
    };
    proof {
        assert(r@.args =~= Seq::empty());
        assert(r@.envs =~= Seq::empty());
    }
    r
}

proof fn bytes_less_is_transitive(a: Seq<u8>, b: Seq<u8>, c: Seq<u8>)
    requires
        bytes_less(a, b),
        bytes_less(b, c),
    ensures
        bytes_less(a, c),
    decreases a.len(),
{
    if a.len() > 0 && a[0] == b[0] && b[0] == c[0] {
        bytes_less_is_transitive(a.skip(1), b.skip(1), c.skip(1));
    }
}

/// Whether `a` stands before `b` in the order of bytes.
pub fn bytes_before(a: &[u8], b: &[u8]) -> (r: bool)
    ensures
        r == bytes_less(a@, b@),
{
    let mut i: usize = 0;
    proof {
        assert(a@.skip(0) =~= a@);
        assert(b@.skip(0) =~= b@);
    }
    while i < a.len() && i < b.len()
        invariant
            i <= a.len(),
            i <= b.len(),
            bytes_less(a@, b@) == bytes_less(a@.skip(i as int), b@.skip(i as int)),
        decreases a.len() - i,
    {
        proof {
            assert(a@.skip(i as int).skip(1) =~= a@.skip(i + 1));
            assert(b@.skip(i as int).skip(1) =~= b@.skip(i + 1));
        }
        if a[i] != b[i] {
            return a[i] < b[i];
        }
        i = i + 1;
    }
    i < b.len()
}

proof fn bytes_less_is_irreflexive(a: Seq<u8>)
    ensures
        !bytes_less(a, a),
    decreases a.len(),
{
    if a.len() > 0 {
        bytes_less_is_irreflexive(a.skip(1));
    }
}

/// In a well-formed descriptor no variable is named twice.
pub proof fn keys_in_order_are_distinct(c: Command, i: int, j: int)
    requires
        c.wf(),
        0 <= i < j < c@.envs.len(),
    ensures
        c@.envs[i].0 != c@.envs[j].0,
{
    bytes_less_is_irreflexive(encode_utf8(c@.envs[i].0));
}

} // verus!
