//! The per-file unit of work: its status, the stage it stands in, and the
//! transitions that the outcomes of outside work drive.
//!
//! Nothing here performs any work. A worker asks an entity which work it
//! awaits ([`Comic::next_work`]), performs it, and hands the outcome back
//! ([`Comic::advance`]); the entity answers with the event to report.

use vstd::prelude::*;

verus! {

/// The kind of artifact a batch produces.
#[derive(Clone, Copy, Debug, PartialEq, Eq, Structural)]
pub enum OutputFormat {
    /// A repackaged archive, built directly from the processed images.
    Cbz,
    /// An e-book container, assembled and then moved into the output directory.
    Epub,
    /// A device binary, converted from an e-book intermediate by a helper process.
    Mobi,
}

/// Batch-wide settings, copied into every entity.
#[derive(Clone, Copy, Debug, PartialEq, Eq, Structural)]
pub struct ComicConfig {
    pub output_format: OutputFormat,
}

/// The ordered phases of a conversion.
#[derive(Clone, Copy, Debug, PartialEq, Eq, Structural)]
pub enum ComicStage {
    Extract,
    Transform,
    Package,
    Convert,
}

/// What an observer is told of an entity.
#[derive(Clone, Debug, PartialEq, Eq)]
pub enum ComicStatus {
    Pending,
    InProgress { stage: ComicStage, progress: u8 },
    Success,
    Failed { error: String },
}

/// A message to the observer of a batch.
#[derive(Clone, Debug, PartialEq, Eq)]
pub enum ProgressEvent {
    RegisterComic { id: usize, file_name: String },
    ComicUpdate { id: usize, status: ComicStatus },
    ProcessingComplete,
}

/// The outside work that an entity awaits.
#[derive(Clone, Copy, Debug, PartialEq, Eq, Structural)]
pub enum Work {
    /// Open the input and count its source images.
    Extract,
    /// Transform the source images into the processed files.
    Transform,
    /// Build the repackaged archive.
    Package,
    /// Assemble the e-book container.
    Assemble,
    /// Move the assembled e-book into the output directory.
    Install,
    /// Hand the entity over to the conversion supervisor.
    Enqueue,
    /// No work is left for a worker: the entity is terminal, or it is with
    /// the conversion supervisor.
    Nothing,
}

/// The outcome of one piece of outside work.
#[derive(Clone, Debug, PartialEq, Eq)]
pub enum Outcome {
    /// Extraction succeeded and found this many source images.
    Extracted { images: usize },
    /// Transformation succeeded and wrote these files, in order.
    Transformed { files: Vec<String> },
    /// The packaging or assembly collaborator succeeded.
    Packaged,
    /// The artifact now lies in the output directory.
    Installed,
    /// The work failed.
    Failed { error: String },
}

/// The state of one input file on its way through the pipeline.
#[derive(Clone, Debug, PartialEq, Eq)]
pub struct Comic {
    pub id: usize,
    pub input: String,
    pub output_dir: String,
    pub title: String,
    pub config: ComicConfig,
    pub stage: ComicStage,
    pub status: ComicStatus,
    /// Source images counted by extraction; 0 before it.
    pub num_images: usize,
    /// The e-book container of the packaging stage has been assembled.
    pub assembled: bool,
    /// Written once, when transformation succeeds.
    pub processed_files: Vec<String>,
}

/// Progress reported when the packaging stage begins.
pub open spec fn package_progress_of(format: OutputFormat) -> u8 {
    if format == OutputFormat::Mobi {
        50
    } else {
        75
    }
}

/// Progress reported when the helper process is about to be spawned.
pub const CONVERT_PROGRESS: u8 = 75;

/// Progress reported when the packaging stage begins: 50 where a
/// conversion is still to follow, 75 otherwise.
pub fn package_progress(format: OutputFormat) -> (p: u8)
    ensures
        p == package_progress_of(format),
{
    match format {
        OutputFormat::Mobi => 50,
        _ => 75,
    }
}

impl ComicStatus {
    /// `Success` and `Failed` are terminal.
    pub open spec fn terminal(self) -> bool {
        self is Success || self is Failed
    }

    /// Whether the status is terminal.
    pub fn is_terminal(&self) -> (t: bool)
        ensures
            t == self.terminal(),
    {
        match self {
            ComicStatus::Success => true,
            ComicStatus::Failed { .. } => true,
            _ => false,
        }
    }
}

impl Comic {
    /// A fresh entity: pending, before extraction, with nothing processed.
    pub open spec fn fresh(self) -> bool {
        &&& self.stage == ComicStage::Extract
        &&& self.status == ComicStatus::Pending
        &&& self.num_images == 0
        &&& !self.assembled
        &&& self.processed_files@.len() == 0
    }

    /// The update event that carries this entity's current status.
    pub open spec fn update(self) -> ProgressEvent {
        ProgressEvent::ComicUpdate { id: self.id, status: self.status }
    }

    /// The entity with another status; a terminal entity stays as it is.
    pub open spec fn with_status(self, status: ComicStatus) -> Comic {
        if self.status.terminal() {
            self
        } else {
            Comic { status, ..self }
        }
    }

    /// The entity at the start of `stage`; a terminal entity stays as it is.
    pub open spec fn entering(self, stage: ComicStage, progress: u8) -> Comic {
        if self.status.terminal() {
            self
        } else {
            Comic { stage, status: ComicStatus::InProgress { stage, progress }, ..self }
        }
    }

    /// The event of a transition from `self` to `next`: none where the
    /// entity was terminal already.
    pub open spec fn report(self, next: Comic) -> Option<ProgressEvent> {
        if self.status.terminal() {
            None
        } else {
            Some(next.update())
        }
    }

    /// The work that the entity awaits.
    pub open spec fn work(self) -> Work {
        if self.status.terminal() {
            Work::Nothing
        } else {
            match self.stage {
                ComicStage::Extract => Work::Extract,
                ComicStage::Transform => Work::Transform,
                ComicStage::Package => match self.config.output_format {
                    OutputFormat::Cbz => Work::Package,
                    OutputFormat::Epub => if self.assembled {
                        Work::Install
                    } else {
                        Work::Assemble
                    },
                    OutputFormat::Mobi => if self.assembled {
                        Work::Enqueue
                    } else {
                        Work::Assemble
                    },
                },
                ComicStage::Convert => Work::Nothing,
            }
        }
    }

    /// The entity after `outcome` has been applied to the work it awaited.
    ///
    /// A failure of awaited work ends the entity as `Failed` with that error.
    /// A success moves it one step on. An outcome that does not answer the
    /// awaited work changes nothing, and neither does any outcome once the
    /// entity is terminal or waits to be handed over.
    pub open spec fn advanced(self, outcome: Outcome) -> Comic {
        match (self.work(), outcome) {
            (Work::Nothing, _) => self,
            (Work::Enqueue, _) => self,
            (_, Outcome::Failed { error }) => self.with_status(ComicStatus::Failed { error }),
            (Work::Extract, Outcome::Extracted { images }) => Comic {
                num_images: images,
                ..self.entering(ComicStage::Transform, 0)
            },
            (Work::Transform, Outcome::Transformed { files }) => Comic {
                processed_files: files,
                ..self.entering(
                    ComicStage::Package,
                    package_progress_of(self.config.output_format),
                )
            },
            (Work::Package, Outcome::Packaged) => self.with_status(ComicStatus::Success),
            (Work::Assemble, Outcome::Packaged) => Comic { assembled: true, ..self },
            (Work::Install, Outcome::Installed) => self.with_status(ComicStatus::Success),
            _ => self,
        }
    }

    /// The event that `advance` reports for `outcome`: the new status after
    /// every step but the assembly of an e-book that is still to be moved
    /// or converted; nothing where the outcome changed nothing.
    pub open spec fn advance_event(self, outcome: Outcome) -> Option<ProgressEvent> {
        match (self.work(), outcome) {
            (Work::Nothing, _) => None,
            (Work::Enqueue, _) => None,
            (_, Outcome::Failed { .. }) => Some(self.advanced(outcome).update()),
            (Work::Extract, Outcome::Extracted { .. }) => Some(self.advanced(outcome).update()),
            (Work::Transform, Outcome::Transformed { .. }) => Some(self.advanced(outcome).update()),
            (Work::Package, Outcome::Packaged) => Some(self.advanced(outcome).update()),
            (Work::Install, Outcome::Installed) => Some(self.advanced(outcome).update()),
            _ => None,
        }
    }

    /// Creates the entity for input number `id` of a batch.
    pub fn new(id: usize, input: String, output_dir: String, title: String, config: ComicConfig) -> (comic: Comic)
        ensures
            comic.fresh(),
            comic.id == id,
            comic.input == input,
            comic.output_dir == output_dir,
            comic.title == title,
            comic.config == config,
    {
        Comic {
            id,
            input,
            output_dir,
            title,
            config,
            stage: ComicStage::Extract,
            status: ComicStatus::Pending,
            num_images: 0,
            assembled: false,
            processed_files: Vec::new(),
        }
    }

    /// Enters `stage` with the given progress and returns the update to
    /// report. A terminal entity does not move and reports nothing.
    pub fn update_status(&mut self, stage: ComicStage, progress: u8) -> (event: Option<ProgressEvent>)
        ensures
            *final(self) == old(self).entering(stage, progress),
            event == old(self).report(*final(self)),
    {
        if self.status.is_terminal() {
            return None;
        }
        self.stage = stage;
        self.status = ComicStatus::InProgress { stage, progress };
        Some(ProgressEvent::ComicUpdate { id: self.id, status: ComicStatus::InProgress { stage, progress } })
    }

    /// Marks the entity `Success`. A terminal entity does not move.
    pub fn success(&mut self) -> (event: Option<ProgressEvent>)
        ensures
            *final(self) == old(self).with_status(ComicStatus::Success),
            event == old(self).report(*final(self)),
    {
        if self.status.is_terminal() {
            return None;
        }
        self.status = ComicStatus::Success;
        Some(ProgressEvent::ComicUpdate { id: self.id, status: ComicStatus::Success })
    }

    /// Marks the entity `Failed` with `error`. A terminal entity does not move.
    pub fn fail(&mut self, error: String) -> (event: Option<ProgressEvent>)
        ensures
            *final(self) == old(self).with_status(ComicStatus::Failed { error }),
            event == old(self).report(*final(self)),
    {
        if self.status.is_terminal() {
            return None;
        }
        let reported = error.clone();
        self.status = ComicStatus::Failed { error };
        Some(ProgressEvent::ComicUpdate { id: self.id, status: ComicStatus::Failed { error: reported } })
    }

    /// The work that the entity awaits.
    pub fn next_work(&self) -> (work: Work)
        ensures
            work == self.work(),
    {
        if self.status.is_terminal() {
            return Work::Nothing;
        }
        match self.stage {
            ComicStage::Extract => Work::Extract,
            ComicStage::Transform => Work::Transform,
            ComicStage::Package => match self.config.output_format {
                OutputFormat::Cbz => Work::Package,
                OutputFormat::Epub => if self.assembled {
                    Work::Install
                } else {
                    Work::Assemble
                },
                OutputFormat::Mobi => if self.assembled {
                    Work::Enqueue
                } else {
                    Work::Assemble
                },
            },
            ComicStage::Convert => Work::Nothing,
        }
    }

    /// Applies the outcome of the awaited work and returns the update to
    /// report, if the status changed.
    pub fn advance(&mut self, outcome: Outcome) -> (event: Option<ProgressEvent>)
        ensures
            *final(self) == old(self).advanced(outcome),
            event == old(self).advance_event(outcome),
    {
        let work = self.next_work();
        match (work, outcome) {
            (Work::Nothing, _) => None,
            (Work::Enqueue, _) => None,
            (_, Outcome::Failed { error }) => self.fail(error),
            (Work::Extract, Outcome::Extracted { images }) => {
                let event = self.update_status(ComicStage::Transform, 0);
                self.num_images = images;
                event
            },
            (Work::Transform, Outcome::Transformed { files }) => {
                let event = self.update_status(
                    ComicStage::Package,
                    package_progress(self.config.output_format),
                );
                self.processed_files = files;
                event
            },
            (Work::Package, Outcome::Packaged) => self.success(),
            (Work::Assemble, Outcome::Packaged) => {
                self.assembled = true;
                None
            },
            (Work::Install, Outcome::Installed) => self.success(),
            _ => None,
        }
    }
}

} // verus!
