//! The context that a worker runs in: its standard streams, its environment and
//! the folders that it sees. Opening a directory is the caller's: a setup says
//! which one comes next and takes what came of it.
use vstd::prelude::*;
use wasmtime_wasi::preview2;
use wasmtime_wasi::Dir;

use crate::errors::{configure_error, stage_reason, staged, Stage, WorkerError};
use crate::features::Folder;
use crate::path::{
    is_absolute, is_component, join, joined, law_joined_is, law_no_parent, law_parent_exists,
    law_parent_of_name, only_separators, parent, parent_of,
};
use crate::stdio::Stdio;
use crate::wasi;
use crate::wasi::{
    buffer_made_empty, env_refusal, env_views, made_empty, pipe_capacity, preopen_error_text,
    preview1_settings, preview2_settings, Access, EnvRefusal, Preview1Settings, Preview2Settings,
};
use crate::worker::Worker;

verus! {

/// A directory of the host, and the place where the worker sees it.
#[derive(Debug)]
pub struct Mount {
    /// Where it lies.
    pub host: Vec<u8>,
    /// Where the worker sees it.
    pub guest: String,
}

impl View for Mount {
    type V = (Seq<u8>, Seq<char>);

    open spec fn view(&self) -> (Seq<u8>, Seq<char>) {
        (self.host@, self.guest@)
    }
}

/// The mounts that `mounts` holds.
pub open spec fn mount_views(mounts: Seq<Mount>) -> Seq<(Seq<u8>, Seq<char>)> {
    mounts.map_values(|mount: Mount| mount@)
}

/// The mounts for `folders` of the worker at `path`: each folder as seen from the
/// directory of the worker. `None` where there are folders but no directory.
pub open spec fn mounts_of(path: Seq<u8>, folders: Seq<Folder>) -> Option<
    Seq<(Seq<u8>, Seq<char>)>,
> {
    if folders.len() == 0 {
        Some(Seq::empty())
    } else {
        match parent_of(path) {
            Some(base) => Some(
                folders.map_values(|folder: Folder| (joined(base, folder.from@), folder.to@)),
            ),
            None => None,
        }
    }
}

/// What each mount is, where the mounts are those for `folders`.
proof fn lemma_mount_fields(mounts: Seq<Mount>, path: Seq<u8>, folders: Seq<Folder>)
    requires
        mounts_of(path, folders) == Some(mount_views(mounts)),
    ensures
        mounts.len() == folders.len(),
        forall|i: int| 0 <= i < folders.len() ==> (#[trigger] mounts[i]).guest@ == folders[i].to@,
        forall|i: int|
            0 <= i < folders.len() ==> parent_of(path) is Some && (#[trigger] mounts[i]).host@
                == joined(parent_of(path)->0, folders[i].from@),
{
    let views = mount_views(mounts);
    assert(views.len() == folders.len());
    assert forall|i: int| 0 <= i < folders.len() implies parent_of(path) is Some && (
    #[trigger] mounts[i]).host@ == joined(parent_of(path)->0, folders[i].from@)
        && mounts[i].guest@ == folders[i].to@ by {
        assert(views[i] == mounts[i]@);
    }
}

/// Finds the mounts for `folders` of the worker at `path`.
pub fn find_mounts(path: &[u8], folders: &Vec<Folder>) -> (mounts: Result<Vec<Mount>, WorkerError>)
    ensures
        match mounts_of(path@, folders@) {
            Some(expected) => mounts matches Ok(found) && mount_views(found@) == expected,
            None => mounts == Err::<Vec<Mount>, WorkerError>(WorkerError::FailedToInitialize),
        },
        mounts matches Ok(found) ==> {
            &&& found@.len() == folders@.len()
            &&& forall|i: int|
                0 <= i < folders@.len() ==> (#[trigger] found@[i]).guest@ == folders@[i].to@
            &&& forall|i: int|
                0 <= i < folders@.len() ==> parent_of(path@) is Some && (
                #[trigger] found@[i]).host@ == joined(parent_of(path@)->0, folders@[i].from@)
        },
        mounts is Err <==> folders@.len() > 0 && parent_of(path@) is None,
{
    let mut mounts: Vec<Mount> = Vec::new();
    if folders.len() == 0 {
        assert(mount_views(mounts@) =~= Seq::empty());
        return Ok(mounts);
    }
    match parent(path) {
        None => Err(WorkerError::FailedToInitialize),
        Some(base) => {
            let ghost expected = mounts_of(path@, folders@)->0;
            let mut i: usize = 0;
            while i < folders.len()
                invariant
                    i <= folders@.len(),
                    expected == folders@.map_values(
                        |folder: Folder| (joined(base@, folder.from@), folder.to@),
                    ),
                    mount_views(mounts@) == expected.take(i as int),
                decreases folders@.len() - i,
            {
                let mount = Mount {
                    host: join(base.as_slice(), folders[i].from.as_slice()),
                    guest: folders[i].to.clone(),
                };
                let ghost before = mounts@;
                mounts.push(mount);
                assert(mount_views(mounts@) =~= mount_views(before).push(mount@));
                assert(expected.take(i as int + 1) =~= expected.take(i as int).push(
                    expected[i as int],
                ));
                i = i + 1;
            }
            assert(expected.take(folders@.len() as int) =~= expected);
            proof {
                lemma_mount_fields(mounts@, path@, folders@);
            }
            Ok(mounts)
        },
    }
}

/// What a worker may do with its folders: everything.
pub open spec fn full_access() -> Access {
    Access { read: true, mutate: true, file_read: true, file_write: true }
}

/// The settings of a preview 1 context before anything is added to it.
pub open spec fn bare_preview1() -> Preview1Settings {
    Preview1Settings {
        stdin: None,
        stdout: None,
        inherits_stderr: false,
        envs: Seq::empty(),
        args: Seq::empty(),
        preopens: Seq::empty(),
    }
}

/// The settings of a preview 2 context before anything is added to it.
pub open spec fn bare_preview2() -> Preview2Settings {
    Preview2Settings {
        stdin: None,
        stdin_is_tty: false,
        stdout: None,
        stdout_is_tty: false,
        inherits_stderr: false,
        envs: Seq::empty(),
        args: Seq::empty(),
        preopens: Seq::empty(),
        built: false,
    }
}

/// A preview 2 context of which some folders may still be missing.
pub struct Preview2Setup {
    /// The standard streams.
    pub stdio: Stdio,
    /// The context so far.
    pub builder: preview2::WasiCtxBuilder,
    /// All the folders.
    pub mounts: Vec<Mount>,
    /// How many of the folders the context has.
    pub mounted: usize,
}

impl Preview2Setup {
    /// The context has the standard streams, no variables, no arguments and, with full
    /// access, the first `mounted` folders.
    pub open spec fn wf(self) -> bool {
        let settings = preview2_settings(self.builder);
        &&& self.mounted <= self.mounts@.len()
        &&& settings == (Preview2Settings {
            preopens: settings.preopens,
            ..self.stdio.in_preview2(bare_preview2())
        })
        &&& settings.preopens.len() == self.mounted
        &&& forall|i: int|
            0 <= i < self.mounted ==> (#[trigger] settings.preopens[i]).1 == full_access()
                && settings.preopens[i].2 == self.mounts@[i].guest@
    }

    /// All the folders are there.
    pub open spec fn complete(self) -> bool {
        self.mounted == self.mounts@.len()
    }

    /// The directory to open next, if there is one.
    pub fn next_directory(&self) -> (host: Option<&Vec<u8>>)
        requires
            self.wf(),
        ensures
            match host {
                Some(host) => !self.complete() && *host == self.mounts@[self.mounted as int].host,
                None => self.complete(),
            },
            host is Some <==> self.mounted < self.mounts@.len(),
    {
        if self.mounted < self.mounts.len() {
            Some(&self.mounts[self.mounted].host)
        } else {
            None
        }
    }

    /// `result` is the setup once this came of opening its next directory: it has one
    /// folder more, or it has failed.
    pub open spec fn opens_to(
        self,
        outcome: Result<Dir, String>,
        result: Result<Self, WorkerError>,
    ) -> bool {
        match outcome {
            Ok(dir) => {
                &&& result matches Ok(setup)
                &&& setup.wf()
                &&& setup.stdio == self.stdio
                &&& setup.mounts == self.mounts
                &&& setup.mounted == self.mounted + 1
                &&& preview2_settings(setup.builder).preopens == preview2_settings(
                    self.builder,
                ).preopens.push((dir, full_access(), self.mounts@[self.mounted as int].guest@))
            },
            Err(cause) => result matches Err(error) && error.says(
                stage_reason(Stage::OpenDirectory, cause@),
            ),
        }
    }

    /// `result` is what the setup comes to when these come of opening its next
    /// directories, one after the other. Once it has failed it stays so.
    pub open spec fn comes_to(
        self,
        outcomes: Seq<Result<Dir, String>>,
        result: Result<Self, WorkerError>,
    ) -> bool
        decreases outcomes.len(),
    {
        if outcomes.len() == 0 {
            result == Ok::<Self, WorkerError>(self)
        } else {
            &&& !self.complete()
            &&& exists|next: Result<Self, WorkerError>| #[trigger]
                self.opens_to(outcomes[0], next) && match next {
                    Ok(setup) => setup.comes_to(outcomes.drop_first(), result),
                    Err(error) => result == Err::<Self, WorkerError>(error),
                }
        }
    }

    /// Takes what came of opening the next directory.
    pub fn opened(self, outcome: Result<Dir, String>) -> (result: Result<Self, WorkerError>)
        requires
            self.wf(),
            !self.complete(),
        ensures
            self.opens_to(outcome, result),
            outcome is Ok <==> result is Ok,
            outcome matches Err(cause) ==> (result matches Err(error) && error.says(
                "error setting up ambient directories ("@ + cause@ + ")"@,
            )),
            result matches Ok(setup) ==> {
                let added = preview2_settings(setup.builder).preopens.last();
                &&& setup.mounted == self.mounted + 1
                &&& setup.mounts == self.mounts
                &&& setup.stdio == self.stdio
                &&& preview2_settings(setup.builder).preopens.drop_last() == preview2_settings(
                    self.builder,
                ).preopens
                &&& outcome == Ok::<Dir, String>(added.0)
                &&& added.1.read && added.1.mutate && added.1.file_read && added.1.file_write
                &&& added.2 == self.mounts@[self.mounted as int].guest@
            },
    {
        match staged(Stage::OpenDirectory, outcome) {
            Ok(dir) => {
                let mut setup = self;
                let next: usize = setup.mounted;
                assert(next < setup.mounts.len());
                wasi::preview2_preopened_dir(
                    &mut setup.builder,
                    dir,
                    Access { read: true, mutate: true, file_read: true, file_write: true },
                    setup.mounts[next].guest.as_str(),
                );
                setup.mounted = next + 1;
                Ok(setup)
            },
            Err(error) => Err(error),
        }
    }
}

/// A preview 1 context of which some folders may still be missing.
pub struct Preview1Setup {
    /// The standard streams.
    pub stdio: Stdio,
    /// The context so far.
    pub builder: wasmtime_wasi::WasiCtxBuilder,
    /// All the folders.
    pub mounts: Vec<Mount>,
    /// How many of the folders the context has.
    pub mounted: usize,
}

impl Preview1Setup {
    /// The context has the standard streams, its variables, no arguments and the first
    /// `mounted` folders.
    pub open spec fn wf(self) -> bool {
        let settings = preview1_settings(self.builder);
        &&& self.mounted <= self.mounts@.len()
        &&& settings == (Preview1Settings {
            envs: settings.envs,
            preopens: settings.preopens,
            ..self.stdio.in_preview1(bare_preview1())
        })
        &&& settings.preopens.len() == self.mounted
        &&& forall|i: int|
            0 <= i < self.mounted ==> (#[trigger] settings.preopens[i]).1 == self.mounts@[i].guest@
    }

    /// All the folders are there.
    pub open spec fn complete(self) -> bool {
        self.mounted == self.mounts@.len()
    }

    /// The directory to open next, if there is one.
    pub fn next_directory(&self) -> (host: Option<&Vec<u8>>)
        requires
            self.wf(),
        ensures
            match host {
                Some(host) => !self.complete() && *host == self.mounts@[self.mounted as int].host,
                None => self.complete(),
            },
            host is Some <==> self.mounted < self.mounts@.len(),
    {
        if self.mounted < self.mounts.len() {
            Some(&self.mounts[self.mounted].host)
        } else {
            None
        }
    }

    /// What comes of offering a directory to the context, given what the context
    /// said to it.
    pub fn preopened(outcome: Result<(), wasi_common::Error>) -> (result: Result<(), WorkerError>)
        ensures
            match outcome {
                Ok(_) => result is Ok,
                Err(cause) => result matches Err(error) && error.says(
                    stage_reason(Stage::Preopen, preopen_error_text(cause)),
                ),
            },
    {
        match outcome {
            Ok(_) => Ok(()),
            Err(cause) => Err(
                configure_error(Stage::Preopen, wasi::describe_preopen_error(&cause).as_str()),
            ),
        }
    }

    /// The context has a number left for another folder.
    pub open spec fn has_room(self) -> bool {
        self.mounted < u32::MAX - 3
    }

    /// `result` is the setup once this came of opening its next directory: it has one
    /// folder more, or it has failed. An open directory is refused only where the
    /// context has no number left for it.
    pub open spec fn opens_to(
        self,
        outcome: Result<Dir, String>,
        result: Result<Self, WorkerError>,
    ) -> bool {
        match outcome {
            Ok(dir) => if self.has_room() {
                &&& result matches Ok(setup)
                &&& setup.wf()
                &&& setup.stdio == self.stdio
                &&& setup.mounts == self.mounts
                &&& setup.mounted == self.mounted + 1
                &&& preview1_settings(setup.builder).envs == preview1_settings(self.builder).envs
                &&& preview1_settings(setup.builder).preopens == preview1_settings(
                    self.builder,
                ).preopens.push((dir, self.mounts@[self.mounted as int].guest@))
            } else {
                result matches Err(error) && error.says(
                    stage_reason(Stage::Preopen, "table has no free keys"@),
                )
            },
            Err(cause) => result matches Err(error) && error.says(
                stage_reason(Stage::OpenDirectory, cause@),
            ),
        }
    }

    /// `result` is what the setup comes to when these come of opening its next
    /// directories, one after the other. Once it has failed it stays so.
    pub open spec fn comes_to(
        self,
        outcomes: Seq<Result<Dir, String>>,
        result: Result<Self, WorkerError>,
    ) -> bool
        decreases outcomes.len(),
    {
        if outcomes.len() == 0 {
            result == Ok::<Self, WorkerError>(self)
        } else {
            &&& !self.complete()
            &&& exists|next: Result<Self, WorkerError>| #[trigger]
                self.opens_to(outcomes[0], next) && match next {
                    Ok(setup) => setup.comes_to(outcomes.drop_first(), result),
                    Err(error) => result == Err::<Self, WorkerError>(error),
                }
        }
    }

    /// Takes what came of opening the next directory.
    pub fn opened(self, outcome: Result<Dir, String>) -> (result: Result<Self, WorkerError>)
        requires
            self.wf(),
            !self.complete(),
        ensures
            self.opens_to(outcome, result),
            outcome is Ok && self.mounted < u32::MAX - 3 <==> result is Ok,
            outcome matches Err(cause) ==> (result matches Err(error) && error.says(
                "error setting up ambient directories ("@ + cause@ + ")"@,
            )),
            result matches Ok(setup) ==> {
                let added = preview1_settings(setup.builder).preopens.last();
                &&& setup.mounted == self.mounted + 1
                &&& setup.mounts == self.mounts
                &&& setup.stdio == self.stdio
                &&& preview1_settings(setup.builder).envs == preview1_settings(self.builder).envs
                &&& preview1_settings(setup.builder).preopens.drop_last() == preview1_settings(
                    self.builder,
                ).preopens
                &&& outcome == Ok::<Dir, String>(added.0)
                &&& added.1 == self.mounts@[self.mounted as int].guest@
            },
    {
        match staged(Stage::OpenDirectory, outcome) {
            Ok(dir) => {
                let mut setup = self;
                let next: usize = setup.mounted;
                assert(next < setup.mounts.len());
                let added = wasi::preview1_preopened_dir(
                    &mut setup.builder,
                    dir,
                    setup.mounts[next].guest.as_str(),
                );
                match Self::preopened(added) {
                    Ok(_) => {
                        setup.mounted = next + 1;
                        Ok(setup)
                    },
                    Err(error) => Err(error),
                }
            },
            Err(error) => Err(error),
        }
    }
}

/// What comes of handing variables to a preview 1 context, given what the context
/// said to it.
pub fn environment_added(outcome: Result<(), EnvRefusal>) -> (result: Result<(), WorkerError>)
    ensures
        match outcome {
            Ok(_) => result is Ok,
            Err(refusal) => result matches Err(error) && error.says(
                stage_reason(Stage::Environment, refusal.words()),
            ),
        },
{
    match outcome {
        Ok(_) => Ok(()),
        Err(refusal) => Err(configure_error(Stage::Environment, refusal.text().as_str())),
    }
}

/// `result` is how the setup of a preview 1 context starts for a worker at `path`,
/// with `input` as the data for it.
pub open spec fn preview1_starts(
    path: Seq<u8>,
    linked: Result<(), String>,
    input: Seq<u8>,
    vars: Seq<(Seq<char>, Seq<char>)>,
    folders: Seq<Folder>,
    result: Result<Preview1Setup, WorkerError>,
) -> bool {
    match linked {
        Err(cause) => result matches Err(error) && error.says(
            stage_reason(Stage::LinkPreview1, cause@),
        ),
        Ok(_) => match env_refusal(vars) {
            Some(refusal) => result matches Err(error) && error.says(
                stage_reason(Stage::Environment, refusal.words()),
            ),
            None => match mounts_of(path, folders) {
                None => result == Err::<Preview1Setup, WorkerError>(
                    WorkerError::FailedToInitialize,
                ),
                Some(mounts) => {
                    &&& result matches Ok(setup)
                    &&& setup.wf()
                    &&& setup.stdio.carries(input)
                    &&& mount_views(setup.mounts@) == mounts
                    &&& setup.mounted == 0
                    &&& preview1_settings(setup.builder).envs == vars
                },
            },
        },
    }
}

/// `result` is how the setup of a preview 2 context starts for a worker at `path`,
/// with `input` as the data for it.
pub open spec fn preview2_starts(
    path: Seq<u8>,
    linked: Result<(), String>,
    input: Seq<u8>,
    folders: Seq<Folder>,
    result: Result<Preview2Setup, WorkerError>,
) -> bool {
    match linked {
        Err(cause) => result matches Err(error) && error.says(
            stage_reason(Stage::Preview2, cause@),
        ),
        Ok(_) => match mounts_of(path, folders) {
            None => result == Err::<Preview2Setup, WorkerError>(WorkerError::FailedToInitialize),
            Some(mounts) => {
                &&& result matches Ok(setup)
                &&& setup.wf()
                &&& setup.stdio.carries(input)
                &&& mount_views(setup.mounts@) == mounts
                &&& setup.mounted == 0
            },
        },
    }
}

impl<R> Worker<R> {
    /// Starts to set up a preview 1 context, given what came of offering the
    /// preview 1 interface to the module.
    pub fn prepare_preview1_ctx(
        &self,
        linked: Result<(), String>,
        input: &[u8],
        vars: &[(String, String)],
        folders: &Vec<Folder>,
    ) -> (result: Result<Preview1Setup, WorkerError>)
        ensures
            preview1_starts(self.path@, linked, input@, env_views(vars@), folders@, result),
    {
        match staged(Stage::LinkPreview1, linked) {
            Ok(_) => {},
            Err(error) => {
                return Err(error);
            },
        }
        let mut builder = wasi::preview1_builder();
        let stdio = Stdio::new(input);
        stdio.configure_wasi_ctx(Some(&mut builder), None);
        assert(Seq::<(Seq<char>, Seq<char>)>::empty() + env_views(vars@) =~= env_views(vars@));
        match environment_added(wasi::preview1_envs(&mut builder, vars)) {
            Ok(_) => {},
            Err(error) => {
                return Err(error);
            },
        }
        match find_mounts(self.path.as_slice(), folders) {
            Ok(mounts) => Ok(Preview1Setup { stdio, builder, mounts, mounted: 0 }),
            Err(error) => Err(error),
        }
    }

    /// Starts to set up a preview 2 context, given what came of offering the
    /// preview 2 interface to the component. The variables are not part of it.
    pub fn prepare_preview2_ctx(
        &self,
        linked: Result<(), String>,
        input: &[u8],
        vars: &[(String, String)],
        folders: &Vec<Folder>,
    ) -> (result: Result<Preview2Setup, WorkerError>)
        ensures
            preview2_starts(self.path@, linked, input@, folders@, result),
    {
        match staged(Stage::Preview2, linked) {
            Ok(_) => {},
            Err(error) => {
                return Err(error);
            },
        }
        let mut builder = wasi::preview2_builder();
        let stdio = Stdio::new(input);
        stdio.configure_wasi_ctx(None, Some(&mut builder));
        match find_mounts(self.path.as_slice(), folders) {
            Ok(mounts) => Ok(Preview2Setup { stdio, builder, mounts, mounted: 0 }),
            Err(error) => Err(error),
        }
    }
}

/// The folders of a worker cannot be resolved if and only if there are folders and
/// the path of the worker has no component.
pub proof fn law_mounts_exist(path: Seq<u8>, folders: Seq<Folder>)
    ensures
        mounts_of(path, folders) is None <==> folders.len() > 0 && forall|s: int, e: int|
            !is_component(path, s, e),
{
    law_parent_exists(path);
}

/// There is one mount for each folder, in the same order. A relative folder lies
/// under the directory of the worker, and an absolute one where it says.
pub proof fn law_mounts_follow_folders(path: Seq<u8>, folders: Seq<Folder>, i: int)
    requires
        0 <= i < folders.len(),
        mounts_of(path, folders) is Some,
    ensures
        ({
            let mounts = mounts_of(path, folders)->0;
            let base = parent_of(path)->0;
            &&& mounts.len() == folders.len()
            &&& mounts[i].1 == folders[i].to@
            &&& is_absolute(folders[i].from@) ==> mounts[i].0 == folders[i].from@
            &&& !is_absolute(folders[i].from@) ==> base.is_prefix_of(mounts[i].0)
                && folders[i].from@.is_suffix_of(mounts[i].0)
            &&& folders[i].from@.len() > 0 && folders[i].from@[0] == 47u8 ==> mounts[i].0
                == folders[i].from@
            &&& (folders[i].from@.len() == 0 || folders[i].from@[0] != 47u8) && base.len() > 0
                && base.last() != 47u8 ==> mounts[i].0 == base + seq![47u8] + folders[i].from@
            &&& (folders[i].from@.len() == 0 || folders[i].from@[0] != 47u8) && (base.len() == 0
                || base.last() == 47u8) ==> mounts[i].0 == base + folders[i].from@
        }),
{
    law_joined_is(parent_of(path)->0, folders[i].from@);
    let base = parent_of(path)->0;
    let from = folders[i].from@;
    let host = joined(base, from);
    if !is_absolute(from) {
        assert(host.take(base.len() as int) =~= base);
        assert(host.skip(host.len() - from.len()) =~= from);
        assert(base.is_prefix_of(host));
        assert(from.is_suffix_of(host));
    }
}

/// A finished preview 2 context has all the folders, in order, each where the worker
/// is to see it and with full access, and the data for the worker as its standard
/// input.
pub proof fn law_preview2_complete(setup: Preview2Setup, input: Seq<u8>)
    requires
        setup.wf(),
        setup.complete(),
        setup.stdio.carries(input),
    ensures
        ({
            let settings = preview2_settings(setup.builder);
            &&& settings.stdin == Some(input)
            &&& settings.stdout == Some(setup.stdio.stdout2)
            &&& settings.inherits_stderr
            &&& settings.envs.len() == 0
            &&& settings.args.len() == 0
            &&& !settings.stdin_is_tty
            &&& !settings.stdout_is_tty
            &&& settings.preopens.len() == setup.mounts@.len()
            &&& forall|i: int|
                0 <= i < setup.mounts@.len() ==> (#[trigger] settings.preopens[i]).1.read
                    && settings.preopens[i].1.mutate && settings.preopens[i].1.file_read
                    && settings.preopens[i].1.file_write && settings.preopens[i].2
                    == setup.mounts@[i].guest@
            &&& !settings.built
            &&& settings.preopens.map_values(|p: (Dir, Access, Seq<char>)| (p.1, p.2))
                == mount_views(setup.mounts@).map_values(
                |m: (Seq<u8>, Seq<char>)| (full_access(), m.1),
            )
        }),
{
    let settings = preview2_settings(setup.builder);
    assert(settings.preopens.map_values(|p: (Dir, Access, Seq<char>)| (p.1, p.2))
        =~= mount_views(setup.mounts@).map_values(
        |m: (Seq<u8>, Seq<char>)| (full_access(), m.1),
    ));
}

/// A finished preview 1 context has all the folders, in order, each where the worker
/// is to see it, and the data for the worker as its standard input.
pub proof fn law_preview1_complete(setup: Preview1Setup, input: Seq<u8>)
    requires
        setup.wf(),
        setup.complete(),
        setup.stdio.carries(input),
    ensures
        ({
            let settings = preview1_settings(setup.builder);
            &&& settings.stdin == Some(input)
            &&& settings.stdout == Some(setup.stdio.stdout)
            &&& settings.inherits_stderr
            &&& settings.args.len() == 0
            &&& settings.preopens.len() == setup.mounts@.len()
            &&& forall|i: int|
                0 <= i < setup.mounts@.len() ==> (#[trigger] settings.preopens[i]).1
                    == setup.mounts@[i].guest@
            &&& settings.preopens.map_values(|p: (Dir, Seq<char>)| p.1) == mount_views(
                setup.mounts@,
            ).map_values(|m: (Seq<u8>, Seq<char>)| m.1)
        }),
{
    let settings = preview1_settings(setup.builder);
    assert(settings.preopens.map_values(|p: (Dir, Seq<char>)| p.1) =~= mount_views(
        setup.mounts@,
    ).map_values(|m: (Seq<u8>, Seq<char>)| m.1));
}

/// The two contexts are at the same point: they have the same folders to get, and
/// have got the same directories at the same places, in the same order.
pub open spec fn alike(one: Preview1Setup, two: Preview2Setup) -> bool {
    &&& one.wf()
    &&& two.wf()
    &&& mount_views(one.mounts@) == mount_views(two.mounts@)
    &&& one.mounted == two.mounted
    &&& preview1_settings(one.builder).preopens == preview2_settings(
        two.builder,
    ).preopens.map_values(|p: (Dir, Access, Seq<char>)| (p.0, p.2))
}

/// The two came to the same: contexts at the same point, or the same error.
pub open spec fn agree(
    one: Result<Preview1Setup, WorkerError>,
    two: Result<Preview2Setup, WorkerError>,
) -> bool {
    match (one, two) {
        (Ok(one), Ok(two)) => alike(one, two),
        (Err(one), Err(two)) => {
            ||| one == two
            ||| exists|reason: Seq<char>| #[trigger] one.says(reason) && two.says(reason)
        },
        _ => false,
    }
}

/// For the same worker and the same folders, the setups of both contexts start at the
/// same point or fail with the same error, where the interfaces could be offered and
/// the variables are not refused.
pub proof fn law_setups_start_alike(
    path: Seq<u8>,
    linked1: Result<(), String>,
    linked2: Result<(), String>,
    input1: Seq<u8>,
    input2: Seq<u8>,
    vars: Seq<(Seq<char>, Seq<char>)>,
    folders: Seq<Folder>,
    one: Result<Preview1Setup, WorkerError>,
    two: Result<Preview2Setup, WorkerError>,
)
    requires
        linked1 is Ok,
        linked2 is Ok,
        env_refusal(vars) is None,
        preview1_starts(path, linked1, input1, vars, folders, one),
        preview2_starts(path, linked2, input2, folders, two),
    ensures
        agree(one, two),
        one is Err ==> one == Err::<Preview1Setup, WorkerError>(WorkerError::FailedToInitialize),
{
    if one is Ok {
        assert(preview1_settings(one->Ok_0.builder).preopens =~= preview2_settings(
            two->Ok_0.builder,
        ).preopens.map_values(|p: (Dir, Access, Seq<char>)| (p.0, p.2)));
    }
}

/// From the same point, both contexts take what came of opening the next directory
/// alike, where the preview 1 context has room for it.
pub proof fn law_setups_open_alike(
    one: Preview1Setup,
    two: Preview2Setup,
    outcome: Result<Dir, String>,
    next1: Result<Preview1Setup, WorkerError>,
    next2: Result<Preview2Setup, WorkerError>,
)
    requires
        alike(one, two),
        !one.complete(),
        one.has_room(),
        one.opens_to(outcome, next1),
        two.opens_to(outcome, next2),
    ensures
        !two.complete(),
        agree(next1, next2),
        next1 is Ok <==> outcome is Ok,
{
    let i = one.mounted as int;
    assert(mount_views(one.mounts@).len() == mount_views(two.mounts@).len());
    assert(mount_views(one.mounts@)[i] == one.mounts@[i]@);
    assert(mount_views(two.mounts@)[i] == two.mounts@[i]@);
    match outcome {
        Ok(dir) => {
            let before = preview2_settings(two.builder).preopens;
            let added = (dir, full_access(), two.mounts@[i].guest@);
            assert(preview1_settings(next1->Ok_0.builder).preopens =~= before.push(
                added,
            ).map_values(|p: (Dir, Access, Seq<char>)| (p.0, p.2)));
        },
        Err(cause) => {
            assert(next1->Err_0.says(stage_reason(Stage::OpenDirectory, cause@)));
        },
    }
}

/// Every directory could be opened.
pub open spec fn all_open(outcomes: Seq<Result<Dir, String>>) -> bool {
    forall|i: int| 0 <= i < outcomes.len() ==> (#[trigger] outcomes[i]) is Ok
}

/// The directories before number `i` could be opened.
pub open spec fn open_until(outcomes: Seq<Result<Dir, String>>, i: int) -> bool {
    &&& 0 <= i < outcomes.len()
    &&& forall|j: int| 0 <= j < i ==> (#[trigger] outcomes[j]) is Ok
}

/// However many directories are opened, both contexts come to the same: from the same
/// point and with the same outcomes they mount the same directories at the same places
/// in the same order, or fail with the same error at the same directory. The preview 1
/// context has room for them all.
pub proof fn law_setups_agree(
    one: Preview1Setup,
    two: Preview2Setup,
    outcomes: Seq<Result<Dir, String>>,
    last1: Result<Preview1Setup, WorkerError>,
    last2: Result<Preview2Setup, WorkerError>,
)
    requires
        alike(one, two),
        one.mounted + outcomes.len() <= u32::MAX - 3,
        one.comes_to(outcomes, last1),
        two.comes_to(outcomes, last2),
    ensures
        agree(last1, last2),
        last1 is Ok <==> all_open(outcomes),
    decreases outcomes.len(),
{
    if outcomes.len() > 0 {
        let rest = outcomes.drop_first();
        let next1 = choose|next: Result<Preview1Setup, WorkerError>| #[trigger]
            one.opens_to(outcomes[0], next) && match next {
                Ok(setup) => setup.comes_to(rest, last1),
                Err(error) => last1 == Err::<Preview1Setup, WorkerError>(error),
            };
        let next2 = choose|next: Result<Preview2Setup, WorkerError>| #[trigger]
            two.opens_to(outcomes[0], next) && match next {
                Ok(setup) => setup.comes_to(rest, last2),
                Err(error) => last2 == Err::<Preview2Setup, WorkerError>(error),
            };
        law_setups_open_alike(one, two, outcomes[0], next1, next2);
        if next1 is Ok {
            law_setups_agree(next1->Ok_0, next2->Ok_0, rest, last1, last2);
            assert(all_open(rest) ==> all_open(outcomes)) by {
                assert forall|i: int| all_open(rest) && 0 <= i < outcomes.len() implies (
                #[trigger] outcomes[i]) is Ok by {
                    if i > 0 {
                        assert(outcomes[i] == rest[i - 1]);
                    }
                }
            }
            assert(all_open(outcomes) ==> all_open(rest)) by {
                assert forall|i: int| all_open(outcomes) && 0 <= i < rest.len() implies (
                #[trigger] rest[i]) is Ok by {
                    assert(rest[i] == outcomes[i + 1]);
                }
            }
        }
    }
}

/// What any number of outcomes makes of a preview 2 setup.
proof fn lemma_preview2_comes_to(
    setup: Preview2Setup,
    outcomes: Seq<Result<Dir, String>>,
    result: Result<Preview2Setup, WorkerError>,
)
    requires
        setup.wf(),
        setup.comes_to(outcomes, result),
    ensures
        match result {
            Ok(done) => {
                &&& all_open(outcomes)
                &&& done.wf()
                &&& done.stdio == setup.stdio
                &&& done.mounts == setup.mounts
                &&& done.mounted == setup.mounted + outcomes.len()
                &&& preview2_settings(done.builder).preopens == preview2_settings(
                    setup.builder,
                ).preopens + Seq::new(
                    outcomes.len(),
                    |i: int|
                        (
                            outcomes[i]->Ok_0,
                            full_access(),
                            setup.mounts@[setup.mounted + i].guest@,
                        ),
                )
            },
            Err(error) => exists|i: int| #[trigger]
                open_until(outcomes, i) && outcomes[i] is Err && error.says(
                    stage_reason(Stage::OpenDirectory, outcomes[i]->Err_0@),
                ),
        },
    decreases outcomes.len(),
{
    let before = preview2_settings(setup.builder).preopens;
    if outcomes.len() == 0 {
        assert(before =~= before + Seq::new(
            outcomes.len(),
            |i: int|
                (outcomes[i]->Ok_0, full_access(), setup.mounts@[setup.mounted + i].guest@),
        ));
    } else {
        let rest = outcomes.drop_first();
        let next = choose|next: Result<Preview2Setup, WorkerError>| #[trigger]
            setup.opens_to(outcomes[0], next) && match next {
                Ok(setup) => setup.comes_to(rest, result),
                Err(error) => result == Err::<Preview2Setup, WorkerError>(error),
            };
        match next {
            Ok(mid) => {
                lemma_preview2_comes_to(mid, rest, result);
                match result {
                    Ok(done) => {
                        assert forall|i: int| 0 <= i < outcomes.len() implies (
                        #[trigger] outcomes[i]) is Ok by {
                            if i > 0 {
                                assert(outcomes[i] == rest[i - 1]);
                            }
                        }
                        assert(preview2_settings(done.builder).preopens =~= before + Seq::new(
                            outcomes.len(),
                            |i: int|
                                (
                                    outcomes[i]->Ok_0,
                                    full_access(),
                                    setup.mounts@[setup.mounted + i].guest@,
                                ),
                        ));
                    },
                    Err(error) => {
                        let i = choose|i: int| #[trigger]
                            open_until(rest, i) && rest[i] is Err && error.says(
                                stage_reason(Stage::OpenDirectory, rest[i]->Err_0@),
                            );
                        assert forall|j: int| 0 <= j < i + 1 implies (
                        #[trigger] outcomes[j]) is Ok by {
                            if j > 0 {
                                assert(outcomes[j] == rest[j - 1]);
                            }
                        }
                        assert(open_until(outcomes, i + 1));
                        assert(outcomes[i + 1] == rest[i]);
                    },
                }
            },
            Err(error) => {
                assert(open_until(outcomes, 0));
            },
        }
    }
}

/// What any number of outcomes makes of a preview 1 setup.
proof fn lemma_preview1_comes_to(
    setup: Preview1Setup,
    outcomes: Seq<Result<Dir, String>>,
    result: Result<Preview1Setup, WorkerError>,
)
    requires
        setup.wf(),
        setup.comes_to(outcomes, result),
    ensures
        match result {
            Ok(done) => {
                &&& all_open(outcomes)
                &&& outcomes.len() > 0 ==> done.mounted <= u32::MAX - 3
                &&& done.wf()
                &&& done.stdio == setup.stdio
                &&& done.mounts == setup.mounts
                &&& done.mounted == setup.mounted + outcomes.len()
                &&& preview1_settings(done.builder).envs == preview1_settings(setup.builder).envs
                &&& preview1_settings(done.builder).preopens == preview1_settings(
                    setup.builder,
                ).preopens + Seq::new(
                    outcomes.len(),
                    |i: int|
                        (outcomes[i]->Ok_0, setup.mounts@[setup.mounted + i].guest@),
                )
            },
            Err(error) => exists|i: int| #[trigger]
                open_until(outcomes, i) && match outcomes[i] {
                    Ok(_) => setup.mounted + i >= u32::MAX - 3 && error.says(
                        stage_reason(Stage::Preopen, "table has no free keys"@),
                    ),
                    Err(cause) => error.says(stage_reason(Stage::OpenDirectory, cause@)),
                },
        },
    decreases outcomes.len(),
{
    let before = preview1_settings(setup.builder).preopens;
    if outcomes.len() == 0 {
        assert(before =~= before + Seq::new(
            outcomes.len(),
            |i: int| (outcomes[i]->Ok_0, setup.mounts@[setup.mounted + i].guest@),
        ));
    } else {
        let rest = outcomes.drop_first();
        let next = choose|next: Result<Preview1Setup, WorkerError>| #[trigger]
            setup.opens_to(outcomes[0], next) && match next {
                Ok(setup) => setup.comes_to(rest, result),
                Err(error) => result == Err::<Preview1Setup, WorkerError>(error),
            };
        match next {
            Ok(mid) => {
                lemma_preview1_comes_to(mid, rest, result);
                match result {
                    Ok(done) => {
                        assert forall|i: int| 0 <= i < outcomes.len() implies (
                        #[trigger] outcomes[i]) is Ok by {
                            if i > 0 {
                                assert(outcomes[i] == rest[i - 1]);
                            }
                        }
                        assert(preview1_settings(done.builder).preopens =~= before + Seq::new(
                            outcomes.len(),
                            |i: int|
                                (outcomes[i]->Ok_0, setup.mounts@[setup.mounted + i].guest@),
                        ));
                    },
                    Err(error) => {
                        let i = choose|i: int| #[trigger]
                            open_until(rest, i) && match rest[i] {
                                Ok(_) => mid.mounted + i >= u32::MAX - 3 && error.says(
                                    stage_reason(Stage::Preopen, "table has no free keys"@),
                                ),
                                Err(cause) => error.says(
                                    stage_reason(Stage::OpenDirectory, cause@),
                                ),
                            };
                        assert forall|j: int| 0 <= j < i + 1 implies (
                        #[trigger] outcomes[j]) is Ok by {
                            if j > 0 {
                                assert(outcomes[j] == rest[j - 1]);
                            }
                        }
                        assert(open_until(outcomes, i + 1));
                        assert(outcomes[i + 1] == rest[i]);
                    },
                }
            },
            Err(error) => {
                assert(open_until(outcomes, 0));
            },
        }
    }
}

/// The setup of a preview 2 context from start to finish: it succeeds if and only if
/// every directory could be opened, and fails with the first that could not. The
/// finished context has the data for the worker and, with full access, the directories
/// in the order they were opened, each where its folder says.
pub proof fn law_preview2_setup(
    path: Seq<u8>,
    linked: Result<(), String>,
    input: Seq<u8>,
    folders: Seq<Folder>,
    start: Preview2Setup,
    outcomes: Seq<Result<Dir, String>>,
    result: Result<Preview2Setup, WorkerError>,
)
    requires
        linked is Ok,
        preview2_starts(path, linked, input, folders, Ok(start)),
        outcomes.len() == folders.len(),
        start.comes_to(outcomes, result),
    ensures
        result is Ok <==> all_open(outcomes),
        match result {
            Ok(done) => {
                &&& done.wf()
                &&& done.complete()
                &&& done.stdio.carries(input)
                &&& preview2_settings(done.builder) == (Preview2Settings {
                    preopens: Seq::new(
                        folders.len(),
                        |i: int| (outcomes[i]->Ok_0, full_access(), folders[i].to@),
                    ),
                    ..done.stdio.in_preview2(bare_preview2())
                })
                &&& preview2_settings(done.builder).stdin == Some(input)
                &&& preview2_settings(done.builder).stdout == Some(done.stdio.stdout2)
                &&& !preview2_settings(done.builder).stdin_is_tty
                &&& !preview2_settings(done.builder).stdout_is_tty
                &&& preview2_settings(done.builder).envs.len() == 0
                &&& preview2_settings(done.builder).args.len() == 0
                &&& forall|i: int| 0 <= i < folders.len() ==> {
                    let mounted = #[trigger] preview2_settings(done.builder).preopens[i];
                    &&& outcomes[i] == Ok::<Dir, String>(mounted.0)
                    &&& mounted.1.read && mounted.1.mutate
                    &&& mounted.1.file_read && mounted.1.file_write
                    &&& mounted.2 == folders[i].to@
                }
            },
            Err(error) => exists|i: int| #[trigger]
                open_until(outcomes, i) && outcomes[i] is Err && error.says(
                    stage_reason(Stage::OpenDirectory, outcomes[i]->Err_0@),
                ),
        },
{
    lemma_preview2_comes_to(start, outcomes, result);
    assert(mount_views(start.mounts@).len() == folders.len());
    if result is Ok {
        let done = result->Ok_0;
        assert forall|i: int| 0 <= i < folders.len() implies #[trigger] start.mounts@[i].guest@
            == folders[i].to@ by {
            assert(mount_views(start.mounts@)[i] == start.mounts@[i]@);
        }
        assert(preview2_settings(done.builder).preopens =~= Seq::new(
            folders.len(),
            |i: int| (outcomes[i]->Ok_0, full_access(), folders[i].to@),
        ));
    }
}

/// The setup of a preview 1 context from start to finish: it succeeds if and only if
/// every directory could be opened and there are numbers for them all, and fails with
/// the first for which that is not so. The finished context has the data for the
/// worker, the variables given at the start and the directories in the order they were
/// opened, each where its folder says.
pub proof fn law_preview1_setup(
    path: Seq<u8>,
    linked: Result<(), String>,
    input: Seq<u8>,
    vars: Seq<(Seq<char>, Seq<char>)>,
    folders: Seq<Folder>,
    start: Preview1Setup,
    outcomes: Seq<Result<Dir, String>>,
    result: Result<Preview1Setup, WorkerError>,
)
    requires
        linked is Ok,
        preview1_starts(path, linked, input, vars, folders, Ok(start)),
        outcomes.len() == folders.len(),
        start.comes_to(outcomes, result),
    ensures
        result is Ok <==> all_open(outcomes) && folders.len() <= u32::MAX - 3,
        match result {
            Ok(done) => {
                &&& done.wf()
                &&& done.complete()
                &&& done.stdio.carries(input)
                &&& preview1_settings(done.builder) == (Preview1Settings {
                    envs: vars,
                    preopens: Seq::new(
                        folders.len(),
                        |i: int| (outcomes[i]->Ok_0, folders[i].to@),
                    ),
                    ..done.stdio.in_preview1(bare_preview1())
                })
                &&& preview1_settings(done.builder).stdin == Some(input)
                &&& preview1_settings(done.builder).stdout == Some(done.stdio.stdout)
                &&& preview1_settings(done.builder).envs == vars
                &&& preview1_settings(done.builder).args.len() == 0
                &&& forall|i: int| 0 <= i < folders.len() ==> {
                    let mounted = #[trigger] preview1_settings(done.builder).preopens[i];
                    &&& outcomes[i] == Ok::<Dir, String>(mounted.0)
                    &&& mounted.1 == folders[i].to@
                }
            },
            Err(error) => exists|i: int| #[trigger]
                open_until(outcomes, i) && match outcomes[i] {
                    Ok(_) => i >= u32::MAX - 3 && error.says(
                        stage_reason(Stage::Preopen, "table has no free keys"@),
                    ),
                    Err(cause) => error.says(stage_reason(Stage::OpenDirectory, cause@)),
                },
        },
{
    lemma_preview1_comes_to(start, outcomes, result);
    assert(mount_views(start.mounts@).len() == folders.len());
    if result is Ok {
        let done = result->Ok_0;
        assert forall|i: int| 0 <= i < folders.len() implies #[trigger] start.mounts@[i].guest@
            == folders[i].to@ by {
            assert(mount_views(start.mounts@)[i] == start.mounts@[i]@);
        }
        assert(preview1_settings(done.builder).preopens =~= Seq::new(
            folders.len(),
            |i: int| (outcomes[i]->Ok_0, folders[i].to@),
        ));
    }
}

/// A worker in a directory has each relative folder right in that directory: one
/// separator and the folder behind it, whatever its other folders are.
pub proof fn law_mounts_beside_worker(dir: Seq<u8>, name: Seq<u8>, folders: Seq<Folder>, i: int)
    requires
        dir.len() > 0,
        dir.last() != 47u8,
        dir.len() >= 2 ==> !(dir[dir.len() - 2] == 47u8 && dir.last() == 46u8),
        name.len() > 0,
        !name.contains(47u8),
        name != seq![46u8],
        0 <= i < folders.len(),
    ensures
        ({
            let mounts = mounts_of(dir + seq![47u8] + name, folders);
            &&& mounts is Some
            &&& mounts->0.len() == folders.len()
            &&& mounts->0[i].1 == folders[i].to@
            &&& folders[i].from@.len() > 0 && folders[i].from@[0] == 47u8 ==> mounts->0[i].0
                == folders[i].from@
            &&& folders[i].from@.len() == 0 || folders[i].from@[0] != 47u8 ==> mounts->0[i].0
                == dir + seq![47u8] + folders[i].from@
        }),
{
    let none = Seq::<u8>::empty();
    law_parent_of_name(dir, seq![47u8], name, none);
    assert(dir + seq![47u8] + name + none =~= dir + seq![47u8] + name);
    law_mounts_follow_folders(dir + seq![47u8] + name, folders, i);
}

/// A folder is mounted alike in every list that it stands in, at every place: its mount
/// depends on the worker and on the folder alone.
pub proof fn law_mounts_one_by_one(
    path: Seq<u8>,
    one: Seq<Folder>,
    i: int,
    two: Seq<Folder>,
    j: int,
)
    requires
        0 <= i < one.len(),
        0 <= j < two.len(),
        one[i].from@ == two[j].from@,
        one[i].to@ == two[j].to@,
    ensures
        mounts_of(path, one) is Some <==> mounts_of(path, two) is Some,
        mounts_of(path, one) is Some ==> mounts_of(path, one)->0[i] == mounts_of(path, two)->0[j],
{
}

/// Folders cannot be mounted if and only if there are some and the path of the worker
/// names nothing: it is empty or, from the root on, nothing but separators.
pub proof fn law_mounts_need_a_name(path: Seq<u8>, folders: Seq<Folder>)
    ensures
        mounts_of(path, folders) is None <==> folders.len() > 0 && (path.len() == 0 || (path[0]
            == 47u8 && only_separators(path))),
        folders.len() == 0 ==> mounts_of(path, folders) is Some && mounts_of(
            path,
            folders,
        )->0.len() == 0,
{
    law_no_parent(path);
}

/// What the setup of a preview 2 context starts with: the data as standard input, an
/// empty pipe of 10240 bytes as standard output, no terminal, no variables, no arguments
/// and no directory yet, with one mount to come for each folder. It starts so if and
/// only if the interface could be offered and the worker has a directory where it has
/// folders.
pub proof fn law_preview2_start(
    path: Seq<u8>,
    linked: Result<(), String>,
    input: Seq<u8>,
    folders: Seq<Folder>,
    result: Result<Preview2Setup, WorkerError>,
)
    requires
        preview2_starts(path, linked, input, folders, result),
    ensures
        result is Ok <==> linked is Ok && (folders.len() == 0 || parent_of(path) is Some),
        linked matches Err(cause) ==> (result matches Err(WorkerError::ConfigureRuntimeError {
            reason,
        }) && reason@ == "error setting up WASI preview 2: "@ + cause@),
        linked is Ok && result is Err ==> result->Err_0 is FailedToInitialize,
        result matches Ok(setup) ==> {
            let settings = preview2_settings(setup.builder);
            &&& setup.stdio.stdin@ == input
            &&& pipe_capacity(setup.stdio.stdout2) == 10240
            &&& made_empty(setup.stdio.stdout2)
            &&& settings.stdin == Some(input)
            &&& settings.stdout == Some(setup.stdio.stdout2)
            &&& !settings.stdin_is_tty
            &&& !settings.stdout_is_tty
            &&& settings.inherits_stderr
            &&& settings.envs.len() == 0
            &&& settings.args.len() == 0
            &&& settings.preopens.len() == 0
            &&& !settings.built
            &&& setup.mounted == 0
            &&& setup.mounts@.len() == folders.len()
            &&& forall|i: int|
                0 <= i < folders.len() ==> (#[trigger] setup.mounts@[i]).guest@ == folders[i].to@
                    && setup.mounts@[i].host@ == joined(parent_of(path)->0, folders[i].from@)
        },
{
    if result is Ok {
        lemma_mount_fields(result->Ok_0.mounts@, path, folders);
    }
}

/// What the setup of a preview 1 context starts with: the data as standard input, an
/// empty buffer as standard output, the variables, no arguments and no directory yet,
/// with one mount to come for each folder. It starts so if and only if the interface
/// could be offered, the variables are not refused and the worker has a directory where
/// it has folders.
pub proof fn law_preview1_start(
    path: Seq<u8>,
    linked: Result<(), String>,
    input: Seq<u8>,
    vars: Seq<(Seq<char>, Seq<char>)>,
    folders: Seq<Folder>,
    result: Result<Preview1Setup, WorkerError>,
)
    requires
        preview1_starts(path, linked, input, vars, folders, result),
    ensures
        result is Ok <==> linked is Ok && env_refusal(vars) is None && (folders.len() == 0
            || parent_of(path) is Some),
        linked matches Err(cause) ==> (result matches Err(WorkerError::ConfigureRuntimeError {
            reason,
        }) && reason@ == "error adding WASI to linker ("@ + cause@ + ")"@),
        linked is Ok && env_refusal(vars) is Some ==> (result matches Err(
            WorkerError::ConfigureRuntimeError { reason },
        ) && reason@ == "error adding environment variables ("@ + env_refusal(vars)->0.words()
            + ")"@),
        linked is Ok && env_refusal(vars) is None && result is Err
            ==> result->Err_0 is FailedToInitialize,
        result matches Ok(setup) ==> {
            let settings = preview1_settings(setup.builder);
            &&& setup.stdio.stdin@ == input
            &&& buffer_made_empty(setup.stdio.stdout)
            &&& settings.stdin == Some(input)
            &&& settings.stdout == Some(setup.stdio.stdout)
            &&& settings.inherits_stderr
            &&& settings.envs == vars
            &&& settings.args.len() == 0
            &&& settings.preopens.len() == 0
            &&& setup.mounted == 0
            &&& setup.mounts@.len() == folders.len()
            &&& forall|i: int|
                0 <= i < folders.len() ==> (#[trigger] setup.mounts@[i]).guest@ == folders[i].to@
                    && setup.mounts@[i].host@ == joined(parent_of(path)->0, folders[i].from@)
        },
{
    if result is Ok {
        lemma_mount_fields(result->Ok_0.mounts@, path, folders);
    }
}

} // verus!
