//! Accumulating the description of the command to launch, one inbound
//! message at a time.
use vstd::prelude::*;
use crate::codec::{Message, MessageView, ProtocolError, tag_of};

verus! {

/// Environment entries as text pairs.
pub type EnvView = Seq<(Seq<char>, Seq<char>)>;

pub open spec fn env_view(env: Seq<(String, String)>) -> EnvView {
    env.map_values(|p: (String, String)| (p.0@, p.1@))
}

pub open spec fn args_view(args: Seq<String>) -> Seq<Seq<char>> {
    args.map_values(|s: String| s@)
}

pub open spec fn text_view(o: Option<String>) -> Option<Seq<char>> {
    match o {
        Some(s) => Some(s@),
        None => None,
    }
}

pub open spec fn bytes_view(o: Option<Vec<u8>>) -> Option<Seq<u8>> {
    match o {
        Some(b) => Some(b@),
        None => None,
    }
}

/// No name occurs twice.
pub open spec fn keys_unique(env: EnvView) -> bool {
    forall|i: int, j: int|
        0 <= i < env.len() && 0 <= j < env.len() && #[trigger] env[i].0 == #[trigger] env[j].0
            ==> i == j
}

pub open spec fn has_key(env: EnvView, k: Seq<char>) -> bool {
    exists|i: int| 0 <= i < env.len() && #[trigger] env[i].0 == k
}

/// Sets `k` to `v`: in place where `k` already stands, at the end otherwise.
pub open spec fn upsert(env: EnvView, k: Seq<char>, v: Seq<char>) -> EnvView {
    if has_key(env, k) {
        let i = choose|i: int| 0 <= i < env.len() && #[trigger] env[i].0 == k;
        env.update(i, (k, v))
    } else {
        env.push((k, v))
    }
}

/// What the child is launched with.
pub struct LaunchSpec {
    pub program: String,
    pub args: Vec<String>,
    pub env: Vec<(String, String)>,
    pub stdin: Option<Vec<u8>>,
    pub current_dir: Option<String>,
}

pub struct LaunchSpecView {
    pub program: Seq<char>,
    pub args: Seq<Seq<char>>,
    pub env: EnvView,
    pub stdin: Option<Seq<u8>>,
    pub current_dir: Option<Seq<char>>,
}

impl View for LaunchSpec {
    type V = LaunchSpecView;

    open spec fn view(&self) -> LaunchSpecView {
        LaunchSpecView {
            program: self.program@,
            args: args_view(self.args@),
            env: env_view(self.env@),
            stdin: bytes_view(self.stdin),
            current_dir: text_view(self.current_dir),
        }
    }
}

/// Why no child could be launched.
pub enum LaunchError {
    /// The field stream ended before a program was named.
    MissingProgram,
    /// The operating system refused to start the program.
    Spawn(String),
    /// A standard stream of the child could not be opened as a pipe.
    Pipe(String),
}

pub open spec fn missing_program_text() -> Seq<char> {
    "command required"@
}

pub open spec fn launch_error_text(e: LaunchError) -> Seq<char> {
    match e {
        LaunchError::MissingProgram => missing_program_text(),
        LaunchError::Spawn(s) => s@,
        LaunchError::Pipe(s) => s@,
    }
}

impl LaunchError {
    /// The text reported to the parent.
    pub fn description(&self) -> (r: String)
        ensures
            r@ == launch_error_text(*self),
    {
        match self {
            LaunchError::MissingProgram => "command required".to_owned(),
            LaunchError::Spawn(s) => s.clone(),
            LaunchError::Pipe(s) => s.clone(),
        }
    }
}

/// The fields received so far.
pub struct SessionBuilder {
    program: Option<String>,
    args: Vec<String>,
    env: Vec<(String, String)>,
    stdin: Option<Vec<u8>>,
    current_dir: Option<String>,
}

pub struct BuilderView {
    pub program: Option<Seq<char>>,
    pub args: Seq<Seq<char>>,
    pub env: EnvView,
    pub stdin: Option<Seq<u8>>,
    pub current_dir: Option<Seq<char>>,
}

impl View for SessionBuilder {
    type V = BuilderView;

    closed spec fn view(&self) -> BuilderView {
        BuilderView {
            program: text_view(self.program),
            args: args_view(self.args@),
            env: env_view(self.env@),
            stdin: bytes_view(self.stdin),
            current_dir: text_view(self.current_dir),
        }
    }
}

pub open spec fn empty_builder() -> BuilderView {
    BuilderView {
        program: None,
        args: seq![],
        env: seq![],
        stdin: None,
        current_dir: None,
    }
}

/// The builder after one inbound message, and whether that message ended the
/// field stream (`Ok(true)`), or the error when the message has no place here.
pub open spec fn add_spec(b: BuilderView, m: MessageView) -> (BuilderView, Result<bool, ProtocolError>) {
    match m {
        MessageView::Command(s) => (BuilderView { program: Some(s), ..b }, Ok(false)),
        MessageView::Arg(s) => (BuilderView { args: b.args.push(s), ..b }, Ok(false)),
        MessageView::Stdin(x) => (BuilderView { stdin: Some(x), ..b }, Ok(false)),
        MessageView::Env(n, v) => (BuilderView { env: upsert(b.env, n, v), ..b }, Ok(false)),
        MessageView::CurrentDir(s) => (BuilderView { current_dir: Some(s), ..b }, Ok(false)),
        MessageView::Eot => (b, Ok(true)),
        _ => (b, Err(ProtocolError::Unexpected(tag_of(m)))),
    }
}

/// The launch description that a finished builder gives, if a program was named.
pub open spec fn finalize_spec(b: BuilderView) -> Option<LaunchSpecView> {
    match b.program {
        Some(p) => Some(
            LaunchSpecView {
                program: p,
                args: b.args,
                env: b.env,
                stdin: b.stdin,
                current_dir: b.current_dir,
            },
        ),
        None => None,
    }
}

impl SessionBuilder {
    pub open spec fn wf(&self) -> bool {
        keys_unique(self@.env)
    }

    pub fn new() -> (r: SessionBuilder)
        ensures
            r@ == empty_builder(),
            r.wf(),
    {
        let r = SessionBuilder {
            program: None,
            args: Vec::new(),
            env: Vec::new(),
            stdin: None,
            current_dir: None,
        };
        assert(r@.args == Seq::<Seq<char>>::empty());
        assert(r@.env == EnvView::empty());
        r
    }

    fn set_env(&mut self, name: String, value: String)
        requires
            old(self).wf(),
        ensures
            final(self).wf(),
            final(self)@ == (BuilderView {
                env: upsert(old(self)@.env, name@, value@),
                ..old(self)@
            }),
    {
        let ghost before = env_view(self.env@);
        let mut i: usize = 0;
        while i < self.env.len()
            invariant
                i <= self.env@.len(),
                env_view(self.env@) == before,
                before == old(self)@.env,
                self.program == old(self).program,
                self.args == old(self).args,
                self.stdin == old(self).stdin,
                self.current_dir == old(self).current_dir,
                keys_unique(before),
                forall|j: int| 0 <= j < i ==> #[trigger] before[j].0 != name@,
            decreases self.env@.len() - i,
        {
            if self.env[i].0 == name {
                assert(before[i as int].0 == name@);
                assert(has_key(before, name@));
                let ghost c = choose|c: int| 0 <= c < before.len() && #[trigger] before[c].0 == name@;
                assert(c == i);
                let ghost n = name@;
                let ghost v = value@;
                self.env.set(i, (name, value));
                assert(env_view(self.env@) == before.update(i as int, (n, v)));
                return;
            }
            i = i + 1;
        }
        assert(!has_key(before, name@));
        let ghost n = name@;
        let ghost v = value@;
        self.env.push((name, value));
        assert(env_view(self.env@) == before.push((n, v)));
    }

    /// Takes one inbound message. `Ok(true)` means the field stream has ended
    /// and the builder is ready to be finalized.
    pub fn add(&mut self, message: Message) -> (r: Result<bool, ProtocolError>)
        requires
            old(self).wf(),
        ensures
            final(self).wf(),
            (final(self)@, r) == add_spec(old(self)@, message@),
    {
        match message {
            Message::Command(string) => {
                self.program = Some(string);
                Ok(false)
            },
            Message::Arg(string) => {
                let ghost s = string@;
                self.args.push(string);
                assert(args_view(self.args@) == args_view(old(self).args@).push(s));
                Ok(false)
            },
            Message::Stdin(bytes) => {
                self.stdin = Some(bytes);
                Ok(false)
            },
            Message::Env(name, value) => {
                self.set_env(name, value);
                Ok(false)
            },
            Message::CurrentDir(string) => {
                self.current_dir = Some(string);
                Ok(false)
            },
            Message::Eot => Ok(true),
            Message::Error(_) => Err(ProtocolError::Unexpected(crate::codec::ERROR)),
            Message::Stdout(_) => Err(ProtocolError::Unexpected(crate::codec::STDOUT)),
            Message::Stderr(_) => Err(ProtocolError::Unexpected(crate::codec::STDERR)),
            Message::ExitStatus(_) => Err(ProtocolError::Unexpected(crate::codec::EXIT_STATUS)),
        }
    }

    /// The launch description, or `MissingProgram` when no program was named.
    pub fn finalize(self) -> (r: Result<LaunchSpec, LaunchError>)
        ensures
            r is Ok <==> self@.program is Some,
            r matches Ok(spec) ==> finalize_spec(self@) == Some(spec@),
            r matches Err(e) ==> e is MissingProgram,
    {
        match self.program {
            Some(program) => Ok(
                LaunchSpec {
                    program,
                    args: self.args,
                    env: self.env,
                    stdin: self.stdin,
                    current_dir: self.current_dir,
                },
            ),
            None => Err(LaunchError::MissingProgram),
        }
    }
}

/// Of two Command messages, the later one names the program.
pub proof fn lemma_last_command_wins(b: BuilderView, first: Seq<char>, second: Seq<char>)
    ensures
        add_spec(add_spec(b, MessageView::Command(first)).0, MessageView::Command(second)).0.program
            == Some(second),
        finalize_spec(
            add_spec(add_spec(b, MessageView::Command(first)).0, MessageView::Command(second)).0,
        ) matches Some(spec) && spec.program == second,
{
}

} // verus!
