//! The dispatcher of a batch: the registration pass over the input files and
//! the signal that ends a batch whose format needs no helper process.

use vstd::prelude::*;
use crate::comic::{Comic, ComicConfig, ComicStatus, OutputFormat, ProgressEvent};

verus! {

/// One input file as the dispatcher sees it.
#[derive(Clone, Debug, PartialEq, Eq)]
pub struct InputFile {
    pub path: String,
    /// The file's stem, which names the comic.
    pub title: String,
    /// Why the input could not be opened, if it could not.
    pub rejected: Option<String>,
}

/// The entities and the events of a registration pass.
#[derive(Clone, Debug, PartialEq, Eq)]
pub struct Dispatch {
    /// One entity per input that could be opened, in input order.
    pub comics: Vec<Comic>,
    /// What to report, in order.
    pub events: Vec<ProgressEvent>,
}

/// What is reported of input number `id`: its registration, directly
/// followed by its failure where it could not be opened.
pub open spec fn file_events(id: usize, file: InputFile) -> Seq<ProgressEvent> {
    let register = ProgressEvent::RegisterComic { id, file_name: file.title };
    match file.rejected {
        None => seq![register],
        Some(error) => seq![
            register,
            ProgressEvent::ComicUpdate { id, status: ComicStatus::Failed { error } },
        ],
    }
}

/// The events of a registration pass over `files`.
pub open spec fn dispatch_events(files: Seq<InputFile>) -> Seq<ProgressEvent>
    decreases files.len(),
{
    if files.len() == 0 {
        Seq::empty()
    } else {
        dispatch_events(files.drop_last()) + file_events(
            (files.len() - 1) as usize,
            files.last(),
        )
    }
}

/// The positions in `files` of the inputs that could be opened, ascending.
pub open spec fn accepted(files: Seq<InputFile>) -> Seq<int>
    decreases files.len(),
{
    if files.len() == 0 {
        Seq::empty()
    } else if files.last().rejected is None {
        accepted(files.drop_last()).push(files.len() - 1)
    } else {
        accepted(files.drop_last())
    }
}

/// `comic` is the fresh entity of input number `id`.
pub open spec fn entity_of(
    comic: Comic,
    id: int,
    file: InputFile,
    config: ComicConfig,
    output_dir: String,
) -> bool {
    &&& comic.fresh()
    &&& comic.id == id
    &&& comic.input == file.path
    &&& comic.title == file.title
    &&& comic.output_dir == output_dir
    &&& comic.config == config
}

/// `comics` holds the fresh entities of the inputs of `files` that could be
/// opened, in input order, and nothing else.
pub open spec fn entities_of(
    comics: Seq<Comic>,
    files: Seq<InputFile>,
    config: ComicConfig,
    output_dir: String,
) -> bool {
    &&& comics.len() == accepted(files).len()
    &&& forall|k: int|
        0 <= k < comics.len() ==> {
            &&& 0 <= (#[trigger] accepted(files)[k]) < files.len()
            &&& entity_of(
                comics[k],
                accepted(files)[k],
                files[accepted(files)[k]],
                config,
                output_dir,
            )
        }
}

/// Every entity of `comics` has reached a terminal status.
pub open spec fn all_settled(comics: Seq<Comic>) -> bool {
    forall|k: int| 0 <= k < comics.len() ==> (#[trigger] comics[k]).status.terminal()
}

/// The registrations among `events`, in order, as pairs of id and name.
pub open spec fn registrations(events: Seq<ProgressEvent>) -> Seq<(usize, String)>
    decreases events.len(),
{
    if events.len() == 0 {
        Seq::empty()
    } else {
        match events.last() {
            ProgressEvent::RegisterComic { id, file_name } => registrations(
                events.drop_last(),
            ).push((id, file_name)),
            _ => registrations(events.drop_last()),
        }
    }
}

proof fn lemma_accepted_in_range(files: Seq<InputFile>)
    ensures
        forall|k: int|
            0 <= k < accepted(files).len() ==> 0 <= (#[trigger] accepted(files)[k]) < files.len(),
    decreases files.len(),
{
    if files.len() > 0 {
        let rest = files.drop_last();
        lemma_accepted_in_range(rest);
        assert forall|k: int| 0 <= k < accepted(files).len() implies 0 <= (#[trigger] accepted(
            files,
        )[k]) < files.len() by {
            if k < accepted(rest).len() {
                assert(accepted(files)[k] == accepted(rest)[k]);
            }
        }
    }
}

/// The registration pass of a batch.
///
/// Walks the inputs in order. Each is registered under its position; one
/// that could not be opened is reported as failed right after and gets no
/// entity, the others get a fresh entity each. No input stops the pass.
pub fn process_files(files: Vec<InputFile>, config: ComicConfig, output_dir: String) -> (dispatch:
    Dispatch)
    ensures
        dispatch.events@ == dispatch_events(files@),
        entities_of(dispatch.comics@, files@, config, output_dir),
{
    let mut comics: Vec<Comic> = Vec::new();
    let mut events: Vec<ProgressEvent> = Vec::new();
    let mut id: usize = 0;
    while id < files.len()
        invariant
            id <= files.len(),
            events@ == dispatch_events(files@.take(id as int)),
            entities_of(comics@, files@.take(id as int), config, output_dir),
        decreases files.len() - id,
    {
        let file = &files[id];
        proof {
            let before = files@.take(id as int);
            let after = files@.take(id + 1);
            assert(after.drop_last() =~= before);
            assert(after.last() == files@[id as int]);
            lemma_accepted_in_range(after);
        }
        let ghost seen = events@;
        events.push(ProgressEvent::RegisterComic { id, file_name: file.title.clone() });
        match &file.rejected {
            None => {
                let comic = Comic::new(
                    id,
                    file.path.clone(),
                    output_dir.clone(),
                    file.title.clone(),
                    config,
                );
                comics.push(comic);
            },
            Some(error) => {
                events.push(
                    ProgressEvent::ComicUpdate {
                        id,
                        status: ComicStatus::Failed { error: error.clone() },
                    },
                );
            },
        }
        proof {
            assert(events@ =~= seen + file_events(id, files@[id as int]));
        }
        id = id + 1;
    }
    proof {
        assert(files@.take(files@.len() as int) =~= files@);
    }
    Dispatch { comics, events }
}

/// The end of a batch whose format needs no helper process.
///
/// Once every entity of such a batch has reached a terminal status the
/// batch is complete. A batch of the device-binary format is completed by
/// its supervisor instead, and nothing is emitted here.
pub fn finish_dispatch(config: ComicConfig, comics: &Vec<Comic>) -> (event: Option<ProgressEvent>)
    ensures
        event == if config.output_format != OutputFormat::Mobi && all_settled(comics@) {
            Some(ProgressEvent::ProcessingComplete)
        } else {
            None
        },
{
    match config.output_format {
        OutputFormat::Mobi => {
            return None;
        },
        _ => {},
    }
    let mut k: usize = 0;
    while k < comics.len()
        invariant
            k <= comics.len(),
            forall|j: int| 0 <= j < k ==> (#[trigger] comics@[j]).status.terminal(),
        decreases comics.len() - k,
    {
        if !comics[k].status.is_terminal() {
            return None;
        }
        k = k + 1;
    }
    Some(ProgressEvent::ProcessingComplete)
}

} // verus!
