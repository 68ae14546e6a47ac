//! Name resolution against the per-item lookup service, the bulk name dataset
//! and the override table.
//!
//! Each resolution is a small state machine. The caller starts it, performs
//! the request it names (an item request or a dataset download), hands the
//! reply to `step`, and repeats until the machine has finished. All decisions
//! are taken here; the caller only moves bytes.
use vstd::prelude::*;

use crate::dataset::{name_by_species, name_in_records, read_csv_records, species_by_name, species_id_in_records, csv_records_of};
use crate::error::CardError;
use crate::item::{slug, slug_of, ItemReply};
use crate::overrides::OverrideTable;
use crate::placement::Index;
use crate::text::{lower_of, to_lowercase};

verus! {

/// Language id of German in the name dataset.
pub const GERMAN: u8 = 6;

/// Language id of English in the name dataset.
pub const ENGLISH: u8 = 9;

/// Entry point to the name dataset and the lookup protocol.
#[derive(Debug, Clone, Copy)]
pub struct PokeApi;

impl PokeApi {
    pub const GERMAN_LANG_ID: u8 = GERMAN;

    pub const ENGLISH_LANG_ID: u8 = ENGLISH;

    /// The species id of the first row of the CSV dataset whose name equals
    /// `search_name`, case aside; `Ok(None)` when no row has it; an error when
    /// a row before it cannot be read.
    pub fn find_species_id_by_name(csv_content: &str, search_name: &str) -> (r: Result<Option<u32>, CardError>)
        ensures
            r matches Ok(Some(v)) ==> species_by_name(csv_records_of(csv_content@), search_name@) == Ok::<Option<nat>, CardError>(Some(v as nat)),
            r matches Ok(None) ==> species_by_name(csv_records_of(csv_content@), search_name@) == Ok::<Option<nat>, CardError>(None),
            r matches Err(e) ==> species_by_name(csv_records_of(csv_content@), search_name@) == Err::<Option<nat>, CardError>(e),
    {
        let records = read_csv_records(csv_content);
        species_id_in_records(&records, search_name)
    }

    /// The name of species `species_id` in language `language_id`, from the
    /// first row of the CSV dataset that has it; `Ok(None)` when none has it;
    /// an error when a row before it cannot be read.
    pub fn find_name_by_species_id(csv_content: &str, species_id: u32, language_id: u8) -> (r: Result<Option<String>, CardError>)
        ensures
            r matches Ok(Some(v)) ==> name_by_species(csv_records_of(csv_content@), species_id as nat, language_id as nat) == Ok::<Option<Seq<char>>, CardError>(Some(v@)),
            r matches Ok(None) ==> name_by_species(csv_records_of(csv_content@), species_id as nat, language_id as nat) == Ok::<Option<Seq<char>>, CardError>(None),
            r matches Err(e) ==> name_by_species(csv_records_of(csv_content@), species_id as nat, language_id as nat) == Err::<Option<Seq<char>>, CardError>(e),
    {
        let records = read_csv_records(csv_content);
        name_in_records(&records, species_id, language_id)
    }
}

/// The two localized names of a card.
#[derive(Debug, Clone, PartialEq, Eq)]
pub struct NameRecord {
    pub english: String,
    pub german: String,
}

impl View for NameRecord {
    type V = (Seq<char>, Seq<char>);

    open spec fn view(&self) -> (Seq<char>, Seq<char>) {
        (self.english@, self.german@)
    }
}

/// The names for a species found in the dataset: the English name as given,
/// the German one from the species' German row, in lower case.
pub open spec fn german_outcome(records: Seq<Option<Seq<Seq<char>>>>, species: nat, english: Seq<char>) -> Result<(Seq<char>, Seq<char>), CardError> {
    match name_by_species(records, species, GERMAN as nat) {
        Err(e) => Err(e),
        Ok(None) => Err(CardError::LocalizationMissing),
        Ok(Some(german)) => Ok((english, lower_of(german))),
    }
}

/// The names of the card with catalog index `index` whose English name the
/// service gave as `english`: the dataset is searched for that name and, when
/// no row has it, for the override name of the index; the German name comes
/// from the row of the species found.
pub open spec fn names_outcome(index: usize, english: Seq<char>, records: Seq<Option<Seq<Seq<char>>>>, overrides: Map<usize, Seq<char>>) -> Result<(Seq<char>, Seq<char>), CardError> {
    match species_by_name(records, english) {
        Err(e) => Err(e),
        Ok(Some(species)) => german_outcome(records, species, english),
        Ok(None) => if overrides.contains_key(index) {
            match species_by_name(records, overrides[index]) {
                Err(e) => Err(e),
                Ok(None) => Err(CardError::NameReconciliation),
                Ok(Some(species)) => german_outcome(records, species, english),
            }
        } else {
            Err(CardError::NameReconciliation)
        },
    }
}

/// The English name of the species that the dataset lists under `name`, in
/// any language.
pub open spec fn english_outcome(records: Seq<Option<Seq<Seq<char>>>>, name: Seq<char>) -> Result<Seq<char>, CardError> {
    match species_by_name(records, name) {
        Err(e) => Err(e),
        Ok(None) => Err(CardError::NameReconciliation),
        Ok(Some(species)) => match name_by_species(records, species, ENGLISH as nat) {
            Err(e) => Err(e),
            Ok(None) => Err(CardError::NameReconciliation),
            Ok(Some(english)) => Ok(english),
        },
    }
}

/// The German name of the species `species`, with the English name kept.
fn german_names(records: &Vec<Option<Vec<String>>>, species: u32, english: &str) -> (r: Result<NameRecord, CardError>)
    ensures
        r matches Ok(n) ==> german_outcome(records.deep_view(), species as nat, english@) == Ok::<(Seq<char>, Seq<char>), CardError>(n@),
        r matches Err(e) ==> german_outcome(records.deep_view(), species as nat, english@) == Err::<(Seq<char>, Seq<char>), CardError>(e),
{
    match name_in_records(records, species, GERMAN) {
        Err(e) => Err(e),
        Ok(None) => Err(CardError::LocalizationMissing),
        Ok(Some(german)) => {
            let german = to_lowercase(german.as_str());
            Ok(NameRecord { english: english.to_owned(), german })
        },
    }
}

/// The names of the card with catalog index `index`, whose English name the
/// service gave as `english`, from CSV records of the name dataset.
pub fn names_in_records(index: usize, english: &str, records: &Vec<Option<Vec<String>>>, overrides: &OverrideTable) -> (r: Result<NameRecord, CardError>)
    ensures
        r matches Ok(n) ==> names_outcome(index, english@, records.deep_view(), overrides@) == Ok::<(Seq<char>, Seq<char>), CardError>(n@),
        r matches Err(e) ==> names_outcome(index, english@, records.deep_view(), overrides@) == Err::<(Seq<char>, Seq<char>), CardError>(e),
{
    match species_id_in_records(records, english) {
        Err(e) => Err(e),
        Ok(Some(species)) => german_names(records, species, english),
        Ok(None) => match overrides.lookup(index) {
            None => Err(CardError::NameReconciliation),
            Some(name) => match species_id_in_records(records, name.as_str()) {
                Err(e) => Err(e),
                Ok(None) => Err(CardError::NameReconciliation),
                Ok(Some(species)) => german_names(records, species, english),
            },
        },
    }
}

/// The English name of the species that CSV records of the name dataset list
/// under `name`.
pub fn english_in_records(records: &Vec<Option<Vec<String>>>, name: &str) -> (r: Result<String, CardError>)
    ensures
        r matches Ok(s) ==> english_outcome(records.deep_view(), name@) == Ok::<Seq<char>, CardError>(s@),
        r matches Err(e) ==> english_outcome(records.deep_view(), name@) == Err::<Seq<char>, CardError>(e),
{
    match species_id_in_records(records, name) {
        Err(e) => Err(e),
        Ok(None) => Err(CardError::NameReconciliation),
        Ok(Some(species)) => match name_in_records(records, species, ENGLISH) {
            Err(e) => Err(e),
            Ok(None) => Err(CardError::NameReconciliation),
            Ok(Some(english)) => Ok(english),
        },
    }
}

/// A request that a resolution needs answered.
#[derive(Debug)]
pub enum Request {
    /// The service's record for a catalog index.
    ItemByIndex(usize),
    /// The service's record for a name, given in service form.
    ItemByName(String),
    /// The text of the name dataset.
    Dataset,
}

/// The answer to a request.
#[derive(Debug)]
pub enum Reply {
    Item(ItemReply),
    Dataset(String),
}

/// A request, in terms of sequences.
pub enum RequestView {
    ItemByIndex(usize),
    ItemByName(Seq<char>),
    Dataset,
}

/// A reply, in terms of sequences.
pub enum ReplyView {
    Item(Option<(nat, Seq<char>)>),
    Dataset(Seq<char>),
}

impl View for Request {
    type V = RequestView;

    open spec fn view(&self) -> RequestView {
        match self {
            Request::ItemByIndex(i) => RequestView::ItemByIndex(*i),
            Request::ItemByName(s) => RequestView::ItemByName(s@),
            Request::Dataset => RequestView::Dataset,
        }
    }
}

impl View for Reply {
    type V = ReplyView;

    open spec fn view(&self) -> ReplyView {
        match self {
            Reply::Item(item) => ReplyView::Item(item@),
            Reply::Dataset(text) => ReplyView::Dataset(text@),
        }
    }
}

/// What a resolution does after a reply: ask the next request, or finish.
#[derive(Debug)]
pub enum Step<S, T> {
    Continue(S, Request),
    Finished(Result<T, CardError>),
}

/// A step, in terms of the views of its parts.
pub enum StepView<S, T> {
    Continue(S, RequestView),
    Finished(Result<T, CardError>),
}

impl<S: View, T: View> View for Step<S, T> {
    type V = StepView<S::V, T::V>;

    open spec fn view(&self) -> StepView<S::V, T::V> {
        match self {
            Step::Continue(s, req) => StepView::Continue(s@, req@),
            Step::Finished(Ok(t)) => StepView::Finished(Ok(t@)),
            Step::Finished(Err(e)) => StepView::Finished(Err(*e)),
        }
    }
}

/// Resolution of a catalog index to its names.
#[derive(Debug)]
pub enum NameLookup {
    /// Waiting for the service's record of the index.
    AwaitingItem { index: usize },
    /// Waiting for the dataset, with the English name the service gave.
    AwaitingDataset { index: usize, english: String },
}

/// The state of a resolution from index to names, in terms of sequences.
pub enum NameLookupView {
    AwaitingItem(usize),
    AwaitingDataset(usize, Seq<char>),
}

impl View for NameLookup {
    type V = NameLookupView;

    open spec fn view(&self) -> NameLookupView {
        match self {
            NameLookup::AwaitingItem { index } => NameLookupView::AwaitingItem(*index),
            NameLookup::AwaitingDataset { index, english } => NameLookupView::AwaitingDataset(*index, english@),
        }
    }
}

/// The request a resolution from index to names waits on.
pub open spec fn name_request(s: NameLookupView) -> RequestView {
    match s {
        NameLookupView::AwaitingItem(index) => RequestView::ItemByIndex(index),
        NameLookupView::AwaitingDataset(..) => RequestView::Dataset,
    }
}

/// One step of a resolution from index to names. An index the service does
/// not know fails; otherwise its English name is looked up in the dataset. A
/// reply of the wrong kind is ignored and the request asked again.
pub open spec fn name_step(s: NameLookupView, reply: ReplyView, overrides: Map<usize, Seq<char>>) -> StepView<NameLookupView, (Seq<char>, Seq<char>)> {
    match (s, reply) {
        (NameLookupView::AwaitingItem(_), ReplyView::Item(None)) => StepView::Finished(Err(CardError::RemoteLookup)),
        (NameLookupView::AwaitingItem(index), ReplyView::Item(Some((_, english)))) => StepView::Continue(
            NameLookupView::AwaitingDataset(index, english),
            RequestView::Dataset,
        ),
        (NameLookupView::AwaitingDataset(index, english), ReplyView::Dataset(text)) => StepView::Finished(
            names_outcome(index, english, csv_records_of(text), overrides),
        ),
        _ => StepView::Continue(s, name_request(s)),
    }
}

impl NameLookup {
    /// Starts resolving the names of a catalog index.
    pub fn start(index: &Index) -> (r: (NameLookup, Request))
        ensures
            r.0@ == NameLookupView::AwaitingItem(index.0),
            r.1@ == name_request(r.0@),
    {
        (NameLookup::AwaitingItem { index: index.0 }, Request::ItemByIndex(index.0))
    }

    /// The request this resolution waits on.
    pub fn request(&self) -> (r: Request)
        ensures
            r@ == name_request(self@),
    {
        match self {
            NameLookup::AwaitingItem { index } => Request::ItemByIndex(*index),
            NameLookup::AwaitingDataset { .. } => Request::Dataset,
        }
    }

    /// Takes the reply to the request and moves on.
    pub fn step(self, reply: Reply, overrides: &OverrideTable) -> (r: Step<NameLookup, NameRecord>)
        ensures
            r@ == name_step(self@, reply@, overrides@),
    {
        match (self, reply) {
            (NameLookup::AwaitingItem { .. }, Reply::Item(ItemReply::NotFound)) => Step::Finished(Err(CardError::RemoteLookup)),
            (NameLookup::AwaitingItem { index }, Reply::Item(ItemReply::Found(rec))) => Step::Continue(
                NameLookup::AwaitingDataset { index, english: rec.name },
                Request::Dataset,
            ),
            (NameLookup::AwaitingDataset { index, english }, Reply::Dataset(text)) => {
                let records = read_csv_records(text.as_str());
                Step::Finished(names_in_records(index, english.as_str(), &records, overrides))
            },
            (state, _) => {
                let req = state.request();
                Step::Continue(state, req)
            },
        }
    }
}

/// Resolution of a name to a catalog index.
#[derive(Debug)]
pub enum IdLookup {
    /// Waiting for the service's record of the name itself, asked for in
    /// service form.
    AwaitingDirect { name: String },
    /// Waiting for the dataset, to find the English name of the name.
    AwaitingDataset { name: String },
    /// Waiting for the service's record of the English name.
    AwaitingRetry { slug: String },
}

/// The state of a resolution from name to index, in terms of sequences.
pub enum IdLookupView {
    AwaitingDirect(Seq<char>),
    AwaitingDataset(Seq<char>),
    AwaitingRetry(Seq<char>),
}

impl View for IdLookup {
    type V = IdLookupView;

    open spec fn view(&self) -> IdLookupView {
        match self {
            IdLookup::AwaitingDirect { name } => IdLookupView::AwaitingDirect(name@),
            IdLookup::AwaitingDataset { name } => IdLookupView::AwaitingDataset(name@),
            IdLookup::AwaitingRetry { slug } => IdLookupView::AwaitingRetry(slug@),
        }
    }
}

/// The request a resolution from name to index waits on.
pub open spec fn id_request(s: IdLookupView) -> RequestView {
    match s {
        IdLookupView::AwaitingDirect(name) => RequestView::ItemByName(slug_of(name)),
        IdLookupView::AwaitingDataset(_) => RequestView::Dataset,
        IdLookupView::AwaitingRetry(slug) => RequestView::ItemByName(slug),
    }
}

/// One step of a resolution from name to index. The service is asked for the
/// name itself, in service form; when it does not know it, the dataset gives
/// the English name of the species listed under the name as given, and the service is asked for that
/// one, which it must know. A reply of the wrong kind is ignored and the
/// request asked again.
pub open spec fn id_step(s: IdLookupView, reply: ReplyView) -> StepView<IdLookupView, usize> {
    match (s, reply) {
        (IdLookupView::AwaitingDirect(_), ReplyView::Item(Some((id, _)))) => StepView::Finished(Ok(id as usize)),
        (IdLookupView::AwaitingDirect(name), ReplyView::Item(None)) => StepView::Continue(
            IdLookupView::AwaitingDataset(name),
            RequestView::Dataset,
        ),
        (IdLookupView::AwaitingDataset(name), ReplyView::Dataset(text)) => match english_outcome(csv_records_of(text), name) {
            Err(e) => StepView::Finished(Err(e)),
            Ok(english) => StepView::Continue(
                IdLookupView::AwaitingRetry(slug_of(english)),
                RequestView::ItemByName(slug_of(english)),
            ),
        },
        (IdLookupView::AwaitingRetry(_), ReplyView::Item(Some((id, _)))) => StepView::Finished(Ok(id as usize)),
        (IdLookupView::AwaitingRetry(_), ReplyView::Item(None)) => StepView::Finished(Err(CardError::NameReconciliation)),
        _ => StepView::Continue(s, id_request(s)),
    }
}

impl IdLookup {
    /// Starts resolving a name: the service is asked for it with its spaces
    /// turned into hyphens.
    pub fn start(name: &str) -> (r: (IdLookup, Request))
        ensures
            r.0@ == IdLookupView::AwaitingDirect(name@),
            r.1@ == id_request(r.0@),
    {
        let req = Request::ItemByName(slug(name));
        (IdLookup::AwaitingDirect { name: name.to_owned() }, req)
    }

    /// The request this resolution waits on.
    pub fn request(&self) -> (r: Request)
        ensures
            r@ == id_request(self@),
    {
        match self {
            IdLookup::AwaitingDirect { name } => Request::ItemByName(slug(name.as_str())),
            IdLookup::AwaitingDataset { .. } => Request::Dataset,
            IdLookup::AwaitingRetry { slug } => Request::ItemByName(slug.clone()),
        }
    }

    /// Takes the reply to the request and moves on.
    pub fn step(self, reply: Reply) -> (r: Step<IdLookup, usize>)
        ensures
            r@ == id_step(self@, reply@),
    {
        match (self, reply) {
            (IdLookup::AwaitingDirect { .. }, Reply::Item(ItemReply::Found(rec))) => Step::Finished(Ok(rec.id)),
            (IdLookup::AwaitingDirect { name }, Reply::Item(ItemReply::NotFound)) => Step::Continue(
                IdLookup::AwaitingDataset { name },
                Request::Dataset,
            ),
            (IdLookup::AwaitingDataset { name }, Reply::Dataset(text)) => {
                let records = read_csv_records(text.as_str());
                match english_in_records(&records, name.as_str()) {
                    Err(e) => Step::Finished(Err(e)),
                    Ok(english) => {
                        let retry = crate::item::slug(english.as_str());
                        let req = Request::ItemByName(retry.clone());
                        Step::Continue(IdLookup::AwaitingRetry { slug: retry }, req)
                    },
                }
            },
            (IdLookup::AwaitingRetry { .. }, Reply::Item(ItemReply::Found(rec))) => Step::Finished(Ok(rec.id)),
            (IdLookup::AwaitingRetry { .. }, Reply::Item(ItemReply::NotFound)) => Step::Finished(Err(CardError::NameReconciliation)),
            (state, _) => {
                let req = state.request();
                Step::Continue(state, req)
            },
        }
    }
}

/// Runs a resolution from index to names for at most `fuel` steps against a
/// service that answers the item request for index `i` with `by_index(i)` and
/// the dataset request with the text `dataset`; `None` if it has not finished.
pub open spec fn run_names(
    s: NameLookupView,
    by_index: spec_fn(usize) -> Option<(nat, Seq<char>)>,
    dataset: Seq<char>,
    overrides: Map<usize, Seq<char>>,
    fuel: nat,
) -> Option<Result<(Seq<char>, Seq<char>), CardError>>
    decreases fuel,
{
    if fuel == 0 {
        None
    } else {
        let reply = match name_request(s) {
            RequestView::ItemByIndex(i) => ReplyView::Item(by_index(i)),
            RequestView::ItemByName(_) => ReplyView::Item(None),
            RequestView::Dataset => ReplyView::Dataset(dataset),
        };
        match name_step(s, reply, overrides) {
            StepView::Finished(r) => Some(r),
            StepView::Continue(next, _) => run_names(next, by_index, dataset, overrides, (fuel - 1) as nat),
        }
    }
}

/// Runs a resolution from name to index for at most `fuel` steps against a
/// service that answers the item request for the name `n` with `by_name(n)`
/// and the dataset request with the text `dataset`; `None` if it has not
/// finished.
pub open spec fn run_ids(
    s: IdLookupView,
    by_name: spec_fn(Seq<char>) -> Option<(nat, Seq<char>)>,
    dataset: Seq<char>,
    fuel: nat,
) -> Option<Result<usize, CardError>>
    decreases fuel,
{
    if fuel == 0 {
        None
    } else {
        let reply = match id_request(s) {
            RequestView::ItemByIndex(_) => ReplyView::Item(None),
            RequestView::ItemByName(n) => ReplyView::Item(by_name(n)),
            RequestView::Dataset => ReplyView::Dataset(dataset),
        };
        match id_step(s, reply) {
            StepView::Finished(r) => Some(r),
            StepView::Continue(next, _) => run_ids(next, by_name, dataset, (fuel - 1) as nat),
        }
    }
}

/// A resolution from index to names whose index the service knows takes two
/// steps and ends with the outcome of the dataset search for the service's name.
proof fn lemma_run_names_known(
    index: usize,
    by_index: spec_fn(usize) -> Option<(nat, Seq<char>)>,
    dataset: Seq<char>,
    overrides: Map<usize, Seq<char>>,
)
    requires
        by_index(index) is Some,
    ensures
        ({
            let (_, english) = by_index(index)->0;
            run_names(NameLookupView::AwaitingItem(index), by_index, dataset, overrides, 2)
                == Some(names_outcome(index, english, csv_records_of(dataset), overrides))
        }),
{
    let (_, english) = by_index(index)->0;
    let s0 = NameLookupView::AwaitingItem(index);
    let s1 = NameLookupView::AwaitingDataset(index, english);
    assert(name_step(s0, ReplyView::Item(by_index(index)), overrides) == StepView::<NameLookupView, (Seq<char>, Seq<char>)>::Continue(s1, RequestView::Dataset));
    assert(run_names(s0, by_index, dataset, overrides, 2) == run_names(s1, by_index, dataset, overrides, 1));
    assert(run_names(s1, by_index, dataset, overrides, 1) == Some(names_outcome(index, english, csv_records_of(dataset), overrides)));
}

/// Resolved names lead back to their index. Take a service whose record for
/// the index carries the index as its id, and which gives that same record
/// when asked for the English name it reported. If resolving the index gives
/// names, resolving the English name among them gives the index again.
pub proof fn lemma_names_round_trip(
    index: usize,
    by_index: spec_fn(usize) -> Option<(nat, Seq<char>)>,
    by_name: spec_fn(Seq<char>) -> Option<(nat, Seq<char>)>,
    dataset: Seq<char>,
    overrides: Map<usize, Seq<char>>,
    names: (Seq<char>, Seq<char>),
)
    requires
        by_index(index) matches Some((id, _)) && id == index,
        run_names(NameLookupView::AwaitingItem(index), by_index, dataset, overrides, 2)
            == Some(Ok::<(Seq<char>, Seq<char>), CardError>(names)),
        by_name(slug_of(names.0)) == by_index(index),
    ensures
        run_ids(IdLookupView::AwaitingDirect(names.0), by_name, dataset, 3)
            == Some(Ok::<usize, CardError>(index)),
{
    let (_, english) = by_index(index)->0;
    let records = csv_records_of(dataset);
    lemma_run_names_known(index, by_index, dataset, overrides);
    assert(names_outcome(index, english, records, overrides) == Ok::<(Seq<char>, Seq<char>), CardError>(names));
    assert(names.0 == english);
}

/// A name the service does not know is resolved through the dataset under the
/// name as given: the species of the first row with that name, case aside,
/// gives its English name, and the service's record for that English name (in
/// service form) gives the index. A name with no such row, a species with no
/// English row, or an English name the service does not know fails with
/// `NameReconciliation`; a row that cannot be read fails with its error.
pub proof fn lemma_id_fallback(
    name: Seq<char>,
    by_name: spec_fn(Seq<char>) -> Option<(nat, Seq<char>)>,
    dataset: Seq<char>,
)
    requires
        by_name(slug_of(name)) is None,
    ensures
        run_ids(IdLookupView::AwaitingDirect(name), by_name, dataset, 3) == Some(
            match english_outcome(csv_records_of(dataset), name) {
                Err(e) => Err(e),
                Ok(english) => match by_name(slug_of(english)) {
                    Some((id, _)) => Ok(id as usize),
                    None => Err::<usize, CardError>(CardError::NameReconciliation),
                },
            },
        ),
{
    let s0 = IdLookupView::AwaitingDirect(name);
    let s1 = IdLookupView::AwaitingDataset(name);
    assert(id_step(s0, ReplyView::Item(None)) == StepView::<IdLookupView, usize>::Continue(s1, RequestView::Dataset));
    assert(run_ids(s0, by_name, dataset, 3) == run_ids(s1, by_name, dataset, 2));
    match english_outcome(csv_records_of(dataset), name) {
        Err(e) => {},
        Ok(english) => {
            let s2 = IdLookupView::AwaitingRetry(slug_of(english));
            assert(run_ids(s1, by_name, dataset, 2) == run_ids(s2, by_name, dataset, 1));
        },
    }
}

/// The German name of resolved names also leads back to the index, through
/// the dataset. Take a service whose record for the index carries the index
/// as its id, which does not know the German name (in service form), and
/// which gives the index's record for the English name that the dataset lists
/// for the species found under the German name. Then resolving the German
/// name gives the index again.
pub proof fn lemma_german_name_round_trip(
    index: usize,
    by_index: spec_fn(usize) -> Option<(nat, Seq<char>)>,
    by_name: spec_fn(Seq<char>) -> Option<(nat, Seq<char>)>,
    dataset: Seq<char>,
    overrides: Map<usize, Seq<char>>,
    names: (Seq<char>, Seq<char>),
    species: nat,
    english: Seq<char>,
)
    requires
        by_index(index) matches Some((id, _)) && id == index,
        run_names(NameLookupView::AwaitingItem(index), by_index, dataset, overrides, 2)
            == Some(Ok::<(Seq<char>, Seq<char>), CardError>(names)),
        by_name(slug_of(names.1)) is None,
        species_by_name(csv_records_of(dataset), names.1) == Ok::<Option<nat>, CardError>(Some(species)),
        name_by_species(csv_records_of(dataset), species, ENGLISH as nat) == Ok::<Option<Seq<char>>, CardError>(Some(english)),
        by_name(slug_of(english)) == by_index(index),
    ensures
        run_ids(IdLookupView::AwaitingDirect(names.1), by_name, dataset, 3)
            == Some(Ok::<usize, CardError>(index)),
{
    let records = csv_records_of(dataset);
    let s0 = IdLookupView::AwaitingDirect(names.1);
    let s1 = IdLookupView::AwaitingDataset(names.1);
    let s2 = IdLookupView::AwaitingRetry(slug_of(english));
    assert(english_outcome(records, names.1) == Ok::<Seq<char>, CardError>(english));
    assert(id_step(s0, ReplyView::Item(None)) == StepView::<IdLookupView, usize>::Continue(s1, RequestView::Dataset));
    assert(run_ids(s0, by_name, dataset, 3) == run_ids(s1, by_name, dataset, 2));
    assert(id_step(s1, ReplyView::Dataset(dataset)) == StepView::<IdLookupView, usize>::Continue(
        s2,
        RequestView::ItemByName(slug_of(english)),
    ));
    assert(run_ids(s1, by_name, dataset, 2) == run_ids(s2, by_name, dataset, 1));
}

/// The override table stands in for a name the dataset lacks. When the
/// dataset has no row under the English name the service gives for an index,
/// but the table maps the index to a name of a species that the dataset has,
/// with a German row, the resolution succeeds with the English name and that
/// German name.
pub proof fn lemma_override_fallback(
    index: usize,
    english: Seq<char>,
    by_index: spec_fn(usize) -> Option<(nat, Seq<char>)>,
    dataset: Seq<char>,
    overrides: Map<usize, Seq<char>>,
    species: nat,
    german: Seq<char>,
)
    requires
        by_index(index) matches Some((_, n)) && n == english,
        species_by_name(csv_records_of(dataset), english) == Ok::<Option<nat>, CardError>(None),
        overrides.contains_key(index),
        species_by_name(csv_records_of(dataset), overrides[index]) == Ok::<Option<nat>, CardError>(Some(species)),
        name_by_species(csv_records_of(dataset), species, GERMAN as nat) == Ok::<Option<Seq<char>>, CardError>(Some(german)),
    ensures
        run_names(NameLookupView::AwaitingItem(index), by_index, dataset, overrides, 2)
            == Some(Ok::<(Seq<char>, Seq<char>), CardError>((english, lower_of(german)))),
{
    lemma_run_names_known(index, by_index, dataset, overrides);
}

/// No default record is made up for a name that cannot be matched. When the
/// dataset has no row under the English name the service gives for an index,
/// and the override table has no name for the index or one the dataset has no
/// row for either, the resolution fails with `NameReconciliation`.
pub proof fn lemma_unmatched_name_fails(
    index: usize,
    english: Seq<char>,
    by_index: spec_fn(usize) -> Option<(nat, Seq<char>)>,
    dataset: Seq<char>,
    overrides: Map<usize, Seq<char>>,
)
    requires
        by_index(index) matches Some((_, n)) && n == english,
        species_by_name(csv_records_of(dataset), english) == Ok::<Option<nat>, CardError>(None),
        !overrides.contains_key(index)
            || species_by_name(csv_records_of(dataset), overrides[index]) == Ok::<Option<nat>, CardError>(None),
    ensures
        run_names(NameLookupView::AwaitingItem(index), by_index, dataset, overrides, 2)
            == Some(Err::<(Seq<char>, Seq<char>), CardError>(CardError::NameReconciliation)),
{
    lemma_run_names_known(index, by_index, dataset, overrides);
}

} // verus!
