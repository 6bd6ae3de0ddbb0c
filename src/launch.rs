//! How the resolved binary is launched: what reaches the child process, and
//! the order of the steps that make the binary present before it runs.
use vstd::prelude::*;
use crate::config::{HASHBANG_BINARY, HASHBANG_CONFIG_URL};
use crate::text::same_text;

verus! {

/// Whether `name` is one of the variables that drive the launcher, which a
/// child process must not inherit.
pub open spec fn is_control_var(name: Seq<char>) -> bool {
    name == HASHBANG_CONFIG_URL@ || name == HASHBANG_BINARY@
}

/// Keeps the environment entries whose name is not a control variable.
pub open spec fn env_forwarded() -> spec_fn((Seq<char>, Seq<char>)) -> bool {
    |e: (Seq<char>, Seq<char>)| !is_control_var(e.0)
}

/// The view of environment entries.
pub open spec fn env_view(envs: Seq<(String, String)>) -> Seq<(Seq<char>, Seq<char>)> {
    envs.map_values(|e: (String, String)| (e.0@, e.1@))
}

/// Whether `name` is one of the variables that drive the launcher.
pub fn is_control_name(name: &str) -> (r: bool)
    ensures
        r == is_control_var(name@),
{
    same_text(name, HASHBANG_CONFIG_URL) || same_text(name, HASHBANG_BINARY)
}

/// The environment handed to the child: the inherited entries in order,
/// without the control variables, so that a launcher started again by the
/// child does not inherit its parent's configuration or override.
pub fn forwarded_env(envs: &Vec<(String, String)>) -> (r: Vec<(String, String)>)
    ensures
        env_view(r@) == env_view(envs@).filter(env_forwarded()),
{
    broadcast use Seq::lemma_filter_push;

    let mut out: Vec<(String, String)> = Vec::new();
    let mut i: usize = 0;
    while i < envs.len()
        invariant
            i <= envs@.len(),
            env_view(out@) == env_view(envs@.subrange(0, i as int)).filter(env_forwarded()),
        decreases envs@.len() - i,
    {
        let ghost before = envs@.subrange(0, i as int);
        assert(env_view(envs@.subrange(0, i + 1)) =~= env_view(before).push(
            (envs@[i as int].0@, envs@[i as int].1@),
        ));
        let (name, value) = &envs[i];
        proof {
            env_view(before).lemma_filter_push((name@, value@), env_forwarded());
        }
        if !is_control_name(name.as_str()) {
            let ghost prev = out@;
            out.push((name.clone(), value.clone()));
            assert(env_view(out@) =~= env_view(prev).push((name@, value@)));
        }
        i = i + 1;
    }
    assert(envs@.subrange(0, i as int) =~= envs@);
    out
}

/// The control variables never reach the child, and every other inherited
/// entry does.
pub proof fn lemma_env_sanitized(envs: Seq<(Seq<char>, Seq<char>)>)
    ensures
        forall|i: int|
            0 <= i < envs.filter(env_forwarded()).len() ==> !is_control_var(
                #[trigger] envs.filter(env_forwarded())[i].0,
            ),
        forall|i: int|
            0 <= i < envs.len() && !is_control_var(#[trigger] envs[i].0) ==> envs.filter(
                env_forwarded(),
            ).contains(envs[i]),
{
    broadcast use Seq::lemma_filter_pred, Seq::lemma_filter_contains;

}

/// The arguments handed to the child: in script mode the first inherited
/// argument, the script's own path, is dropped; otherwise all pass.
pub open spec fn args_forwarded<A>(args: Seq<A>, script_mode: bool) -> Seq<A> {
    if script_mode && args.len() > 0 {
        args.drop_first()
    } else {
        args
    }
}

/// The arguments handed to the child process, in order and unchanged.
pub fn forwarded_args<A>(args: Vec<A>, script_mode: bool) -> (r: Vec<A>)
    ensures
        r@ == args_forwarded(args@, script_mode),
{
    let ghost given = args@;
    let mut args = args;
    if script_mode && args.len() > 0 {
        let _script = args.remove(0);
        assert(args@ =~= given.drop_first());
    }
    args
}

/// The process's own exit code once the child has ended: 0 on success,
/// else the child's code, or 1 when it ended without one.
pub fn exit_code(success: bool, code: Option<i32>) -> (r: i32)
    ensures
        r == (if success {
            0
        } else {
            match code {
                Some(c) => c,
                None => 1,
            }
        }),
{
    if success {
        0
    } else {
        match code {
            Some(c) => c,
            None => 1,
        }
    }
}

/// How far making the binary present has got.
#[derive(Debug, Clone, Copy, PartialEq, Eq)]
pub enum Stage {
    /// Nothing done yet.
    Start,
    /// The archive has been downloaded.
    Downloaded,
    /// The archive has been extracted into the cache.
    Extracted,
}

/// What to do next.
#[derive(Debug, Clone, Copy, PartialEq, Eq)]
pub enum Action {
    /// Download the archive.
    Download,
    /// Run the extraction steps over the downloaded archive.
    Extract,
    /// Run the binary.
    Execute,
    /// The binary is absent although extraction succeeded.
    MissingAfterExtraction,
}

/// The action that follows `stage`, given whether the binary is present.
pub open spec fn action_after(stage: Stage, binary_present: bool) -> Action {
    match stage {
        Stage::Start => if binary_present {
            Action::Execute
        } else {
            Action::Download
        },
        Stage::Downloaded => Action::Extract,
        Stage::Extracted => if binary_present {
            Action::Execute
        } else {
            Action::MissingAfterExtraction
        },
    }
}

/// The action that follows `stage`, given whether the binary is present
/// in the cache.
pub fn next_action(stage: Stage, binary_present: bool) -> (r: Action)
    ensures
        r == action_after(stage, binary_present),
{
    match stage {
        Stage::Start => if binary_present {
            Action::Execute
        } else {
            Action::Download
        },
        Stage::Downloaded => Action::Extract,
        Stage::Extracted => if binary_present {
            Action::Execute
        } else {
            Action::MissingAfterExtraction
        },
    }
}

/// The stage reached once `action` is done, if it leads anywhere.
pub open spec fn stage_after(action: Action) -> Option<Stage> {
    match action {
        Action::Download => Some(Stage::Downloaded),
        Action::Extract => Some(Stage::Extracted),
        _ => None,
    }
}

/// With the binary already cached, the launcher executes it at once: no
/// download and no extraction.
pub proof fn lemma_cached_binary_runs_at_once()
    ensures
        action_after(Stage::Start, true) == Action::Execute,
{
}

/// With an empty cache the launcher downloads, then extracts, then runs the
/// binary that extraction produced; a second run, with the binary cached,
/// executes straight away.
pub proof fn lemma_first_and_second_run()
    ensures
        action_after(Stage::Start, false) == Action::Download,
        stage_after(Action::Download) == Some(Stage::Downloaded),
        action_after(Stage::Downloaded, false) == Action::Extract,
        stage_after(Action::Extract) == Some(Stage::Extracted),
        action_after(Stage::Extracted, true) == Action::Execute,
        action_after(Stage::Start, true) == Action::Execute,
{
}

} // verus!
