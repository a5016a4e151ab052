//! A model of what surrounds the provisioner: the platform, the disk and
//! the network, as far as provisioning can see and change them. The model
//! exists to say what a whole run of the provisioner achieves.

use crate::path::ConfigPath;
use crate::provision::{Action, Event, Provisioner};
use vstd::prelude::*;

verus! {

/// The surroundings of one run.
pub struct World {
    /// The user's configuration directory, if the platform names one.
    pub config_dir: Option<String>,
    /// Whether the application's directory exists.
    pub directory: bool,
    /// The bytes of the configuration file, if it exists.
    pub file: Option<Vec<u8>>,
    /// The body of the template, if fetching it works.
    pub template: Option<Vec<u8>>,
    /// Whether the application's directory can be created.
    pub can_create: bool,
    /// Whether the configuration file can be written.
    pub can_write: bool,
}

/// What carrying out an action does to the world, and what is reported
/// back. The two closing actions are not the provisioner's to carry out:
/// they have no answer.
pub open spec fn respond(world: World, action: Action) -> Option<(World, Event)> {
    match action {
        Action::ResolveConfigDirectory => Some((world, Event::ConfigDirectory(world.config_dir))),
        Action::ProbeDirectory(_) => Some((world, Event::DirectoryExists(world.directory))),
        Action::CreateDirectory(_) => Some(
            if world.can_create {
                (World { directory: true, ..world }, Event::DirectoryCreated(true))
            } else {
                (world, Event::DirectoryCreated(false))
            },
        ),
        Action::ProbeFile(_) => Some((world, Event::FileExists(world.file is Some))),
        Action::FetchTemplate(_) => Some((world, Event::TemplateFetched(world.template))),
        Action::WriteFile(_, body) => Some(
            if world.can_write {
                (World { file: Some(body), ..world }, Event::FileWritten(true))
            } else {
                (world, Event::FileWritten(false))
            },
        ),
        Action::Load(_) => None,
        Action::Abort(_) => None,
    }
}

/// The world and the provisioner after at most `steps` actions were carried
/// out, beginning with `action`, together with the actions asked for along
/// the way, the last of them still open.
pub open spec fn run(world: World, state: Provisioner, action: Action, steps: nat) -> (
    World,
    Provisioner,
    Seq<Action>,
)
    decreases steps,
{
    match respond(world, action) {
        Some((changed, event)) if steps > 0 => {
            let (next, asked) = state.spec_step(event);
            let (last, end, rest) = run(changed, next, asked, (steps - 1) as nat);
            (last, end, seq![action] + rest)
        },
        _ => (world, state, seq![action]),
    }
}

/// One whole run of the provisioner in a world. No run needs more than
/// five actions carried out.
pub open spec fn ensure_exists(world: World) -> (World, Provisioner, Seq<Action>) {
    run(world, Provisioner::Resolving, Action::ResolveConfigDirectory, 5)
}

/// Whether an action reaches out to the network or changes the disk.
pub open spec fn has_effect(action: Action) -> bool {
    action is CreateDirectory || action is FetchTemplate || action is WriteFile
}

/// Every run comes to an end: the file is in place, or provisioning
/// failed, and the action left open is the closing one that says so.
pub proof fn lemma_run_ends(world: World)
    ensures
        (match ensure_exists(world).1 {
            Provisioner::Ready(path) => ensure_exists(world).2.last() == Action::Load(path),
            Provisioner::Failed(error) => ensure_exists(world).2.last() == Action::Abort(error),
            _ => false,
        }),
{
    reveal_with_fuel(run, 6);
}

/// A run fails exactly when the world lets it down: it names no
/// configuration directory, or something that the run needed to do did
/// not work.
pub proof fn lemma_run_succeeds(world: World)
    ensures
        ensure_exists(world).1 is Ready <==> ({
            &&& world.config_dir is Some
            &&& world.directory || world.can_create
            &&& (world.directory && world.file is Some) || (world.template is Some
                && world.can_write)
        }),
{
    reveal_with_fuel(run, 6);
}

/// A run creates at most one directory, fetches at most once and writes
/// at most one file.
pub proof fn lemma_run_is_sparing(world: World)
    ensures
        forall|i: int, j: int|
            #![trigger ensure_exists(world).2[i], ensure_exists(world).2[j]]
            0 <= i < j < ensure_exists(world).2.len() ==> ({
                let first = ensure_exists(world).2[i];
                let second = ensure_exists(world).2[j];
                &&& !(first is CreateDirectory && second is CreateDirectory)
                &&& !(first is FetchTemplate && second is FetchTemplate)
                &&& !(first is WriteFile && second is WriteFile)
            }),
{
    reveal_with_fuel(run, 6);
}

/// A configuration file that is already there is left alone: nothing is
/// created, fetched or written, and the world stays as it is.
pub proof fn lemma_existing_file_is_kept(world: World)
    requires
        world.config_dir is Some,
        world.directory,
        world.file is Some,
    ensures
        ({
            let path = ConfigPath { config_dir: world.config_dir->0 };
            ensure_exists(world) == (
                world,
                Provisioner::Ready(path),
                seq![
                    Action::ResolveConfigDirectory,
                    Action::ProbeDirectory(path),
                    Action::ProbeFile(path),
                    Action::Load(path),
                ],
            )
        }),
        forall|i: int|
            0 <= i < ensure_exists(world).2.len() ==> !has_effect(
                #[trigger] ensure_exists(world).2[i],
            ),
{
    reveal_with_fuel(run, 6);
}

/// Where the application's directory is missing, a run that succeeds
/// leaves the directory in place and in it a configuration file that
/// holds the fetched template, byte for byte.
pub proof fn lemma_missing_directory_is_seeded(world: World)
    requires
        !world.directory,
        ensure_exists(world).1 is Ready,
    ensures
        ensure_exists(world).0.directory,
        ensure_exists(world).0.file == world.template,
        world.template is Some,
{
    reveal_with_fuel(run, 6);
}

/// Where only the configuration file is missing, a run that succeeds
/// puts the fetched template in its place, byte for byte.
pub proof fn lemma_missing_file_is_seeded(world: World)
    requires
        world.directory,
        world.file is None,
        ensure_exists(world).1 is Ready,
    ensures
        ensure_exists(world).0.directory,
        ensure_exists(world).0.file == world.template,
        world.template is Some,
{
    reveal_with_fuel(run, 6);
}

/// Provisioning twice does no more than provisioning once: where the first
/// run succeeds, a second run in the world it leaves behind creates,
/// fetches and writes nothing, changes nothing, and succeeds as well.
pub proof fn lemma_provisioning_is_idempotent(world: World)
    requires
        ensure_exists(world).1 is Ready,
    ensures
        ({
            let first = ensure_exists(world);
            let second = ensure_exists(first.0);
            &&& second.0 == first.0
            &&& second.1 == first.1
            &&& forall|i: int| 0 <= i < second.2.len() ==> !has_effect(#[trigger] second.2[i])
        }),
{
    reveal_with_fuel(run, 6);
    lemma_existing_file_is_kept(ensure_exists(world).0);
}

} // verus!
