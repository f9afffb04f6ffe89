//! Backup of one list: its metadata, its field definitions and its complete
//! entry collection, each written to its own file.
//!
//! `ListBackup` decides the order of the work and the file names; the caller
//! performs each step (a file write, a page fetch) and reports back. Every
//! failure is fatal: the caller stops at once and writes nothing further.

use crate::artifacts::{artifact_file, artifact_path, ArtifactKind};
use crate::paging::{PageRequest, Paginator, PagerState};
use vstd::prelude::*;

verus! {

/// Summary of one completed list backup.
#[derive(Debug)]
pub struct BackupItem {
    /// The list's display name.
    pub name: String,
    /// The list's UUID.
    pub uuid: String,
}

/// Where a list backup stands.
#[derive(Clone, Copy, Debug, PartialEq, Eq, Structural)]
pub enum ListPhase {
    /// The metadata file is to be written.
    WriteList,
    /// The field definitions file is to be written.
    WriteFields,
    /// Entry pages are being fetched.
    Fetch,
    /// The complete entry collection is to be written.
    WriteItems,
    /// All three files are written.
    Finished,
}

/// What the caller must do next for a list backup.
#[derive(Debug)]
pub enum ListStep {
    /// Write the artifact of `kind` to `path`.
    Write { kind: ArtifactKind, path: String },
    /// Fetch one page of entries.
    Fetch { request: PageRequest },
    /// Nothing is left to do.
    Done,
}

impl ListStep {
    /// This step writes the artifact of `kind` to `path`.
    pub open spec fn writes(&self, kind: ArtifactKind, path: Seq<char>) -> bool {
        match self {
            ListStep::Write { kind: k, path: p } => *k == kind && p@ == path,
            _ => false,
        }
    }
}

/// Abstract state of a list backup.
pub struct ListBackupState<T> {
    pub output: Seq<char>,
    pub name: Seq<char>,
    pub uuid: Seq<char>,
    pub phase: ListPhase,
    pub pager: PagerState<T>,
}

impl<T> ListBackupState<T> {
    /// The pager has not started before the fetch phase, is running during
    /// it, and has seen the empty page after it.
    pub open spec fn wf(self) -> bool {
        &&& self.pager.wf()
        &&& (self.phase == ListPhase::WriteList || self.phase == ListPhase::WriteFields)
            ==> self.pager == PagerState::<T>::initial(self.pager.limit)
        &&& self.phase == ListPhase::Fetch ==> !self.pager.done
        &&& (self.phase == ListPhase::WriteItems || self.phase == ListPhase::Finished)
            ==> self.pager.done
    }

    /// The phase that follows a successful file write.
    pub open spec fn phase_after_write(phase: ListPhase) -> ListPhase {
        match phase {
            ListPhase::WriteList => ListPhase::WriteFields,
            ListPhase::WriteFields => ListPhase::Fetch,
            ListPhase::WriteItems => ListPhase::Finished,
            _ => phase,
        }
    }
}

/// Drives the backup of one list whose metadata has been resolved.
pub struct ListBackup<T> {
    output: String,
    name: String,
    uuid: String,
    phase: ListPhase,
    pager: Paginator<T>,
}

impl<T> View for ListBackup<T> {
    type V = ListBackupState<T>;

    closed spec fn view(&self) -> ListBackupState<T> {
        ListBackupState {
            output: self.output@,
            name: self.name@,
            uuid: self.uuid@,
            phase: self.phase,
            pager: self.pager@,
        }
    }
}

impl<T> ListBackup<T> {
    pub open spec fn wf(&self) -> bool {
        self@.wf()
    }

    /// Starts the backup of the list named `name` with UUID `uuid`, both taken
    /// from the list's resolved metadata, into directory `output`, fetching
    /// `limit` entries per page.
    pub fn new(output: &str, name: &str, uuid: &str, limit: usize) -> (r: ListBackup<T>)
        requires
            limit > 0,
        ensures
            r.wf(),
            r@.output == output@,
            r@.name == name@,
            r@.uuid == uuid@,
            r@.phase == ListPhase::WriteList,
            r@.pager == PagerState::<T>::initial(limit as nat),
    {
        ListBackup {
            output: String::from_str(output),
            name: String::from_str(name),
            uuid: String::from_str(uuid),
            phase: ListPhase::WriteList,
            pager: Paginator::new(limit),
        }
    }

    pub fn phase(&self) -> (r: ListPhase)
        ensures
            r == self@.phase,
    {
        self.phase
    }

    /// The next step: the metadata file, then the field definitions file,
    /// then page fetches until the empty page, then the entries file. Every
    /// path is named from the list's own UUID.
    pub fn next_step(&self) -> (r: ListStep)
        requires
            self.wf(),
        ensures
            self@.phase == ListPhase::WriteList ==> r.writes(
                ArtifactKind::List,
                artifact_file(self@.output, self@.uuid, ArtifactKind::List),
            ),
            self@.phase == ListPhase::WriteFields ==> r.writes(
                ArtifactKind::Fields,
                artifact_file(self@.output, self@.uuid, ArtifactKind::Fields),
            ),
            self@.phase == ListPhase::Fetch ==> r == (ListStep::Fetch {
                request: PageRequest {
                    skip: self@.pager.skip as usize,
                    limit: self@.pager.limit as usize,
                },
            }),
            self@.phase == ListPhase::WriteItems ==> r.writes(
                ArtifactKind::Items,
                artifact_file(self@.output, self@.uuid, ArtifactKind::Items),
            ),
            self@.phase == ListPhase::Finished ==> r is Done,
            (r matches ListStep::Write { kind, .. } && kind == ArtifactKind::Items)
                ==> self@.pager.done,
    {
        match self.phase {
            ListPhase::WriteList => ListStep::Write {
                kind: ArtifactKind::List,
                path: artifact_path(self.output.as_str(), self.uuid.as_str(), ArtifactKind::List),
            },
            ListPhase::WriteFields => ListStep::Write {
                kind: ArtifactKind::Fields,
                path: artifact_path(
                    self.output.as_str(),
                    self.uuid.as_str(),
                    ArtifactKind::Fields,
                ),
            },
            ListPhase::Fetch => {
                let request = self.pager.next_request();
                match request {
                    Some(request) => ListStep::Fetch { request },
                    None => ListStep::Done,
                }
            },
            ListPhase::WriteItems => ListStep::Write {
                kind: ArtifactKind::Items,
                path: artifact_path(self.output.as_str(), self.uuid.as_str(), ArtifactKind::Items),
            },
            ListPhase::Finished => ListStep::Done,
        }
    }

    /// Records that the file of the current phase has been written.
    pub fn on_written(&mut self)
        requires
            old(self).wf(),
            old(self)@.phase == ListPhase::WriteList || old(self)@.phase == ListPhase::WriteFields
                || old(self)@.phase == ListPhase::WriteItems,
        ensures
            final(self).wf(),
            final(self)@ == (ListBackupState {
                phase: ListBackupState::<T>::phase_after_write(old(self)@.phase),
                ..old(self)@
            }),
    {
        self.phase = match self.phase {
            ListPhase::WriteList => ListPhase::WriteFields,
            ListPhase::WriteFields => ListPhase::Fetch,
            _ => ListPhase::Finished,
        };
    }

    /// Records a fetched page. The empty page ends the fetch phase.
    pub fn on_page(&mut self, page: Vec<T>)
        requires
            old(self).wf(),
            old(self)@.phase == ListPhase::Fetch,
            old(self)@.pager.skip + page@.len() <= usize::MAX,
        ensures
            final(self).wf(),
            final(self)@.pager == old(self)@.pager.accept(page@),
            final(self)@.phase == if page@.len() == 0 {
                ListPhase::WriteItems
            } else {
                ListPhase::Fetch
            },
            final(self)@.output == old(self)@.output,
            final(self)@.name == old(self)@.name,
            final(self)@.uuid == old(self)@.uuid,
    {
        let empty = page.len() == 0;
        self.pager.accept_page(page);
        if empty {
            self.phase = ListPhase::WriteItems;
        }
    }

    /// The entries fetched so far, in the order received.
    pub fn entries(&self) -> (r: &Vec<T>)
        ensures
            r@ == self@.pager.entries,
    {
        self.pager.entries()
    }

    /// The summary of this list's backup.
    pub fn item(&self) -> (r: BackupItem)
        ensures
            r.name@ == self@.name,
            r.uuid@ == self@.uuid,
    {
        BackupItem { name: self.name.clone(), uuid: self.uuid.clone() }
    }
}

} // verus!
