//! Lookup data: immutable snapshots of a map from bytes to bytes, and the
//! manager that replaces the current snapshot.

use crate::abi::{ExtensionHandle, OakStatus};
use crate::entries::{decode_entries, spec_decode_entries};
use crate::extension::{ExtensionError, OakApiNativeExtension};
use crate::logger::{Level, OakLogger};
use crate::text::{format_bytes, spec_format_bytes};
use std::sync::Arc;
use vstd::prelude::*;
use vstd::slice::*;
use vstd::string::*;

verus! {

/// A map from keys to values, both byte sequences, with at most one value for a
/// key. It is a `hashbrown::HashMap`, which Verus does not look into: what it
/// holds is named by `spec_entries`.
#[verifier::external_body]
pub struct Data {
    inner: hashbrown::HashMap<Vec<u8>, Vec<u8>>,
}

/// The entries that a map holds.
pub uninterp spec fn spec_entries(data: Data) -> Map<Seq<u8>, Seq<u8>>;

/// The map without entries.
pub open spec fn spec_no_entries() -> Map<Seq<u8>, Seq<u8>> {
    Map::empty()
}

/// The value that a map holds for a key, if any.
pub open spec fn spec_lookup(entries: Map<Seq<u8>, Seq<u8>>, key: Seq<u8>) -> Option<Seq<u8>> {
    if entries.contains_key(key) {
        Some(entries[key])
    } else {
        None
    }
}

/// Whether an optional byte vector holds the given optional byte sequence.
pub open spec fn spec_holds(found: Option<Vec<u8>>, expected: Option<Seq<u8>>) -> bool {
    match (found, expected) {
        (Some(value), Some(bytes)) => value@ == bytes,
        (None, None) => true,
        _ => false,
    }
}

/// Whether a map has finitely many entries, and `count` of them.
pub open spec fn spec_counts(entries: Map<Seq<u8>, Seq<u8>>, count: nat) -> bool {
    entries.dom().finite() && entries.len() == count
}

/// `HashMap::new`: an empty map.
#[verifier::external_body]
fn data_new() -> (data: Data)
    ensures
        spec_entries(data) == spec_no_entries(),
{
    Data { inner: hashbrown::HashMap::new() }
}

/// `HashMap::insert`: the map then holds the value for the key, and the value
/// that it held for the key before is returned.
#[verifier::external_body]
fn data_insert(data: &mut Data, key: Vec<u8>, value: Vec<u8>) -> (previous: Option<Vec<u8>>)
    ensures
        spec_entries(*final(data)) == spec_entries(*old(data)).insert(key@, value@),
        spec_holds(previous, spec_lookup(spec_entries(*old(data)), key@)),
{
    data.inner.insert(key, value)
}

/// `HashMap::get`: a copy of the value that the map holds for the key.
#[verifier::external_body]
fn data_get(data: &Data, key: &[u8]) -> (value: Option<Vec<u8>>)
    ensures
        spec_holds(value, spec_lookup(spec_entries(*data), key@)),
{
    data.inner.get(key).cloned()
}

/// `HashMap::len`: the number of entries, of which there are finitely many.
#[verifier::external_body]
fn data_len(data: &Data) -> (count: usize)
    ensures
        spec_counts(spec_entries(*data), count as nat),
{
    data.inner.len()
}

/// `HashMap::is_empty`: whether the map holds no entry.
#[verifier::external_body]
fn data_is_empty(data: &Data) -> (empty: bool)
    ensures
        empty == (spec_entries(*data) == spec_no_entries()),
{
    data.inner.is_empty()
}

/// `HashMap::extend` with another map: every entry of `source` is inserted, so
/// that where both maps hold a key the value of `source` stays.
#[verifier::external_body]
fn data_extend(data: &mut Data, source: Data)
    ensures
        spec_entries(*final(data)) == spec_entries(*old(data)).union_prefer_right(
            spec_entries(source),
        ),
{
    data.inner.extend(source.inner)
}

impl View for Data {
    type V = Map<Seq<u8>, Seq<u8>>;

    open spec fn view(&self) -> Map<Seq<u8>, Seq<u8>> {
        spec_entries(*self)
    }
}

impl Data {
    /// An empty map.
    pub fn new() -> (data: Data)
        ensures
            data@ == spec_no_entries(),
    {
        data_new()
    }

    /// Sets the value of a key and returns the value that it had.
    pub fn insert(&mut self, key: Vec<u8>, value: Vec<u8>) -> (previous: Option<Vec<u8>>)
        ensures
            final(self)@ == old(self)@.insert(key@, value@),
            spec_holds(previous, spec_lookup(old(self)@, key@)),
    {
        data_insert(self, key, value)
    }

    /// The value of a key.
    pub fn get(&self, key: &[u8]) -> (value: Option<Vec<u8>>)
        ensures
            spec_holds(value, spec_lookup(self@, key@)),
    {
        data_get(self, key)
    }

    /// The number of entries.
    pub fn len(&self) -> (len: usize)
        ensures
            self@.dom().finite(),
            len == self@.len(),
    {
        data_len(self)
    }

    /// Whether the map holds no entry.
    pub fn is_empty(&self) -> (empty: bool)
        ensures
            empty == (self@ == spec_no_entries()),
    {
        data_is_empty(self)
    }
}

/// The map that holds the given entries, a later one replacing an earlier one
/// with the same key.
pub open spec fn spec_from_entries(entries: Seq<(Seq<u8>, Seq<u8>)>) -> Map<Seq<u8>, Seq<u8>>
    decreases entries.len(),
{
    if entries.len() == 0 {
        spec_no_entries()
    } else {
        spec_from_entries(entries.drop_last()).insert(entries.last().0, entries.last().1)
    }
}

/// The entries of a vector of pairs as pairs of byte sequences.
pub open spec fn spec_pairs(entries: Seq<(Vec<u8>, Vec<u8>)>) -> Seq<(Seq<u8>, Seq<u8>)> {
    entries.map_values(|entry: (Vec<u8>, Vec<u8>)| (entry.0@, entry.1@))
}

/// Builds a map from a list of entries. Where a key occurs more than once, its
/// last value stays.
pub fn data_from_entries(entries: &[(Vec<u8>, Vec<u8>)]) -> (data: Data)
    ensures
        data@ == spec_from_entries(spec_pairs(entries@)),
{
    let mut data = Data::new();
    let ghost all = spec_pairs(entries@);
    let mut i: usize = 0;
    while i < entries.len()
        invariant
            i <= entries@.len(),
            all == spec_pairs(entries@),
            data@ == spec_from_entries(all.take(i as int)),
        decreases entries@.len() - i,
    {
        let key = slice_to_vec(entries[i].0.as_slice());
        let value = slice_to_vec(entries[i].1.as_slice());
        proof {
            assert(all.take(i + 1).drop_last() =~= all.take(i as int));
            assert(all.take(i + 1).last() == (key@, value@));
        }
        data.insert(key, value);
        i = i + 1;
    }
    proof {
        assert(all.take(i as int) =~= all);
    }
    data
}

/// Whether the builder holds the entries of an update that has not finished.
#[derive(Clone, Copy, Debug, PartialEq, Eq, Structural)]
pub enum BuilderState {
    Empty,
    Updating,
}

/// Builds the next snapshot step by step and keeps track of whether an update
/// is under way. An empty builder holds no entries.
pub struct DataBuilder {
    data: Data,
    state: BuilderState,
}

impl DataBuilder {
    #[verifier::type_invariant]
    spec fn inv(self) -> bool {
        self.state == BuilderState::Empty ==> self.data@ == spec_no_entries()
    }

    pub closed spec fn spec_state(self) -> BuilderState {
        self.state
    }

    pub closed spec fn spec_data(self) -> Map<Seq<u8>, Seq<u8>> {
        self.data@
    }

    /// An empty builder.
    pub fn new() -> (builder: DataBuilder)
        ensures
            builder.spec_state() == BuilderState::Empty,
            builder.spec_data() == spec_no_entries(),
    {
        DataBuilder { data: Data::new(), state: BuilderState::Empty }
    }

    /// Hands out what was built and sets the builder back to empty.
    pub fn build(&mut self) -> (data: Data)
        ensures
            data@ == old(self).spec_data(),
            final(self).spec_state() == BuilderState::Empty,
            final(self).spec_data() == spec_no_entries(),
    {
        let mut data = Data::new();
        std::mem::swap(&mut self.data, &mut data);
        self.state = BuilderState::Empty;
        data
    }

    /// Adds entries to the builder. A key that the builder holds already gets
    /// the new value.
    pub fn extend(&mut self, new_data: Data)
        ensures
            final(self).spec_state() == BuilderState::Updating,
            final(self).spec_data() == old(self).spec_data().union_prefer_right(new_data@),
    {
        let mut data = Data::new();
        std::mem::swap(&mut self.data, &mut data);
        data_extend(&mut data, new_data);
        self.state = BuilderState::Updating;
        std::mem::swap(&mut self.data, &mut data);
    }
}

/// How the lookup data is to be updated.
#[derive(Clone, Copy, Debug, PartialEq, Eq, Structural)]
pub enum UpdateAction {
    /// Replace the current snapshot by the given entries in one step.
    StartAndFinish,
}

/// What became of an update.
#[derive(Clone, Copy, Debug, PartialEq, Eq, Structural)]
pub enum UpdateStatus {
    Started,
    Finished,
    Aborted,
}

/// Why an update was turned down.
#[derive(Clone, Copy, Debug, PartialEq, Eq, Structural)]
pub enum UpdateError {
    /// The bytes do not hold entries.
    Malformed,
}

/// What an update reports: `Finished` where no update was under way, else
/// `Aborted`.
pub open spec fn spec_update_status(state: BuilderState) -> UpdateStatus {
    match state {
        BuilderState::Empty => UpdateStatus::Finished,
        BuilderState::Updating => UpdateStatus::Aborted,
    }
}

/// Owns the current snapshot of the lookup data. It hands out handles that
/// share the snapshot, and replaces the snapshot as a whole: the data of a
/// snapshot is never changed, so a handle keeps seeing what it saw first.
pub struct LookupDataManager<L: OakLogger + Clone> {
    data: Arc<Data>,
    data_builder: DataBuilder,
    logger: L,
}

impl<L: OakLogger + Clone> LookupDataManager<L> {
    /// The entries of the current snapshot.
    pub closed spec fn spec_current(&self) -> Map<Seq<u8>, Seq<u8>> {
        (*self.data)@
    }

    /// Whether an update is under way.
    pub closed spec fn spec_builder_state(&self) -> BuilderState {
        self.data_builder.spec_state()
    }

    /// Creates a manager whose snapshot is empty.
    pub fn new_empty(logger: L) -> (manager: Self)
        ensures
            manager.spec_current() == spec_no_entries(),
            manager.spec_builder_state() == BuilderState::Empty,
    {
        LookupDataManager { data: Arc::new(Data::new()), data_builder: DataBuilder::new(), logger }
    }

    /// Creates a manager whose snapshot holds the given entries.
    pub fn for_test(data: Data, logger: L) -> (manager: Self)
        ensures
            manager.spec_current() == data@,
            manager.spec_builder_state() == BuilderState::Empty,
    {
        LookupDataManager { data: Arc::new(data), data_builder: DataBuilder::new(), logger }
    }

    /// Updates the data that new handles will see. Where no update is under
    /// way, the given entries become the current snapshot and the update is
    /// `Finished`. Where one is, what it had built is thrown away, the current
    /// snapshot stays, and the update is `Aborted`. Either way no update is
    /// under way afterwards.
    pub fn update_data(&mut self, action: UpdateAction, new_data: Data) -> (status: UpdateStatus)
        ensures
            final(self).spec_builder_state() == BuilderState::Empty,
            final(self).spec_current() == spec_current_after_update(
                old(self).spec_current(),
                new_data@,
                old(self).spec_builder_state(),
            ),
            status == spec_update_status(old(self).spec_builder_state()),
    {
        proof {
            use_type_invariant(&self.data_builder);
        }
        match (self.data_builder.state, action) {
            (BuilderState::Empty, UpdateAction::StartAndFinish) => {
                self.data_builder.extend(new_data);
                let next_data = self.data_builder.build();
                proof {
                    assert(next_data@ =~= new_data@);
                }
                self.data = Arc::new(next_data);
                UpdateStatus::Finished
            },
            (BuilderState::Updating, UpdateAction::StartAndFinish) => {
                // Clear the builder and throw away what it had built.
                let _ = self.data_builder.build();
                UpdateStatus::Aborted
            },
        }
    }

    /// Updates the data from entries given as bytes. Malformed bytes are turned
    /// down before anything is touched: the snapshot and the builder stay as
    /// they are. Otherwise the entries are handed to `update_data`, a later
    /// entry replacing an earlier one with the same key.
    pub fn update_from_bytes(&mut self, action: UpdateAction, bytes: &[u8]) -> (status: Result<
        UpdateStatus,
        UpdateError,
    >)
        ensures
            match spec_decode_entries(bytes@) {
                None => status == Err::<UpdateStatus, UpdateError>(UpdateError::Malformed)
                    && final(self).spec_current() == old(self).spec_current() && final(self).spec_builder_state() == old(self).spec_builder_state(),
                Some(entries) => status == Ok::<UpdateStatus, UpdateError>(
                    spec_update_status(old(self).spec_builder_state()),
                ) && final(self).spec_builder_state() == BuilderState::Empty && final(self).spec_current() == spec_current_after_update(
                    old(self).spec_current(),
                    spec_from_entries(entries),
                    old(self).spec_builder_state(),
                ),
            },
    {
        match decode_entries(bytes) {
            Some(entries) => Ok(self.update_data(action, data_from_entries(entries.as_slice()))),
            None => Err(UpdateError::Malformed),
        }
    }

    /// Creates a handle on the current snapshot.
    pub fn create_lookup_data(&self) -> (lookup_data: LookupData<L>)
        ensures
            lookup_data@ == self.spec_current(),
    {
        LookupData::new(self.data.clone(), self.logger.clone())
    }
}

/// A handle on one snapshot of the lookup data.
pub struct LookupData<L: OakLogger + Clone> {
    data: Arc<Data>,
    logger: L,
}

impl<L: OakLogger + Clone> View for LookupData<L> {
    type V = Map<Seq<u8>, Seq<u8>>;

    closed spec fn view(&self) -> Map<Seq<u8>, Seq<u8>> {
        (*self.data)@
    }
}

/// Number of bytes of a key or a value that a log line shows at most.
pub const LOGGED_BYTES: usize = 512;

/// The first `limit` items of a sequence, or all of it if it is shorter.
pub open spec fn spec_truncated(bytes: Seq<u8>, limit: nat) -> Seq<u8> {
    if bytes.len() <= limit {
        bytes
    } else {
        bytes.take(limit as int)
    }
}

/// The first `limit` bytes of a slice.
pub fn truncated(bytes: &[u8], limit: usize) -> (head: &[u8])
    ensures
        head@ == spec_truncated(bytes@, limit as nat),
{
    if bytes.len() <= limit {
        bytes
    } else {
        slice_subrange(bytes, 0, limit)
    }
}

/// The answer of the lookup extension: the value found, if any.
#[derive(Clone, Debug, PartialEq, Eq)]
pub struct StorageGetItemResponse {
    pub value: Option<Vec<u8>>,
}

/// The answer of the lookup extension as bytes: a zero byte where no value was
/// found, else a one byte followed by the value.
pub open spec fn spec_encode_item(value: Option<Seq<u8>>) -> Seq<u8> {
    match value {
        Some(bytes) => seq![1u8] + bytes,
        None => seq![0u8],
    }
}

/// The answer that bytes stand for, if they stand for one.
pub open spec fn spec_decode_item(bytes: Seq<u8>) -> Option<Option<Seq<u8>>> {
    if bytes.len() == 1 && bytes[0] == 0 {
        Some(None)
    } else if bytes.len() >= 1 && bytes[0] == 1 {
        Some(Some(bytes.skip(1)))
    } else {
        None
    }
}

impl StorageGetItemResponse {
    pub open spec fn spec_value(&self) -> Option<Seq<u8>> {
        match self.value {
            Some(value) => Some(value@),
            None => None,
        }
    }

    /// Writes the answer as bytes.
    pub fn encode(&self) -> (bytes: Vec<u8>)
        ensures
            bytes@ == spec_encode_item(self.spec_value()),
    {
        let mut bytes: Vec<u8> = Vec::new();
        match &self.value {
            Some(value) => {
                bytes.push(1);
                let mut i: usize = 0;
                while i < value.len()
                    invariant
                        i <= value@.len(),
                        bytes@ == seq![1u8] + value@.take(i as int),
                    decreases value@.len() - i,
                {
                    bytes.push(value[i]);
                    i = i + 1;
                    assert(bytes@ =~= seq![1u8] + value@.take(i as int));
                }
                assert(value@.take(i as int) =~= value@);
            },
            None => {
                bytes.push(0);
                assert(bytes@ =~= seq![0u8]);
            },
        }
        bytes
    }

    /// Reads an answer from bytes.
    pub fn decode(bytes: &[u8]) -> (response: Option<StorageGetItemResponse>)
        ensures
            match spec_decode_item(bytes@) {
                Some(value) => response matches Some(r) && r.spec_value() == value,
                None => response is None,
            },
    {
        if bytes.len() == 1 && bytes[0] == 0 {
            Some(StorageGetItemResponse { value: None })
        } else if bytes.len() >= 1 && bytes[0] == 1 {
            let value = slice_to_vec(slice_subrange(bytes, 1, bytes.len()));
            assert(value@ =~= bytes@.skip(1));
            Some(StorageGetItemResponse { value: Some(value) })
        } else {
            None
        }
    }
}

/// Reading an answer that was written gives the answer back.
pub proof fn lemma_item_round_trip(value: Option<Seq<u8>>)
    ensures
        spec_decode_item(spec_encode_item(value)) == Some(value),
{
    match value {
        Some(bytes) => {
            assert((seq![1u8] + bytes).skip(1) =~= bytes);
        },
        None => {},
    }
}

impl<L: OakLogger + Clone> LookupData<L> {
    pub(crate) fn new(data: Arc<Data>, logger: L) -> (lookup_data: Self)
        ensures
            lookup_data@ == (*data)@,
    {
        LookupData { data, logger }
    }

    /// Gets the value of a key from the snapshot. A key without a value gives
    /// `None`, never an error.
    pub fn get(&self, key: &[u8]) -> (value: Option<Vec<u8>>)
        ensures
            spec_holds(value, spec_lookup(self@, key@)),
    {
        self.data.get(key)
    }

    /// The number of entries in the snapshot.
    pub fn len(&self) -> (len: usize)
        ensures
            self@.dom().finite(),
            len == self@.len(),
    {
        self.data.len()
    }

    /// Whether the snapshot is empty.
    pub fn is_empty(&self) -> (empty: bool)
        ensures
            empty == (self@ == spec_no_entries()),
    {
        self.data.is_empty()
    }

    /// Logs an error message, which may hold sensitive data.
    pub fn log_error(&self, message: &str) {
        self.logger.log_sensitive(Level::Error, message)
    }

    /// Logs a debug message, which may hold sensitive data.
    pub fn log_debug(&self, message: &str) {
        self.logger.log_sensitive(Level::Debug, message)
    }
}

/// The log line for a key that is looked up.
pub open spec fn spec_key_line(key: Seq<u8>) -> Seq<char> {
    "storage_get_item(): key: "@ + spec_format_bytes(spec_truncated(key, LOGGED_BYTES as nat))
}

/// The log line for what a lookup found.
pub open spec fn spec_value_line(value: Option<Seq<u8>>) -> Seq<char> {
    match value {
        Some(bytes) => "storage_get_item(): value: "@ + spec_format_bytes(
            spec_truncated(bytes, LOGGED_BYTES as nat),
        ),
        None => "storage_get_item(): value not found"@,
    }
}

/// Writes the log line for a key that is looked up. At most the first
/// `LOGGED_BYTES` bytes are shown.
pub fn key_line(key: &[u8]) -> (line: String)
    ensures
        line@ == spec_key_line(key@),
{
    let mut line = String::from_str("storage_get_item(): key: ");
    let shown = format_bytes(truncated(key, LOGGED_BYTES));
    line.append(shown.as_str());
    line
}

/// Writes the log line for what a lookup found. At most the first
/// `LOGGED_BYTES` bytes of a value are shown.
pub fn value_line(value: &Option<Vec<u8>>) -> (line: String)
    ensures
        line@ == spec_value_line(
            match *value {
                Some(bytes) => Some(bytes@),
                None => None,
            },
        ),
{
    match value {
        Some(bytes) => {
            let mut line = String::from_str("storage_get_item(): value: ");
            let shown = format_bytes(truncated(bytes.as_slice(), LOGGED_BYTES));
            line.append(shown.as_str());
            line
        },
        None => String::from_str("storage_get_item(): value not found"),
    }
}

impl<L: OakLogger + Clone> OakApiNativeExtension for LookupData<L> {
    open spec fn spec_handle(&self) -> ExtensionHandle {
        ExtensionHandle::LookupHandle
    }

    /// Looks up the request as a key and answers with the value found, if any.
    /// The snapshot stays as it is.
    fn invoke(&mut self, request: Vec<u8>) -> (response: Result<Vec<u8>, OakStatus>)
        ensures
            final(self)@ == old(self)@,
            response matches Ok(bytes) && bytes@ == spec_encode_item(
                spec_lookup(old(self)@, request@),
            ),
    {
        let key = request;
        self.log_debug(key_line(key.as_slice()).as_str());
        let value = self.get(key.as_slice());
        self.log_debug(value_line(&value).as_str());
        Ok(StorageGetItemResponse { value }.encode())
    }

    fn terminate(&mut self) -> (done: Result<(), ExtensionError>)
        ensures
            final(self)@ == old(self)@,
            done is Ok,
    {
        Ok(())
    }

    fn get_handle(&self) -> (handle: ExtensionHandle)
        ensures
            handle == ExtensionHandle::LookupHandle,
            handle == self.spec_handle(),
    {
        ExtensionHandle::LookupHandle
    }
}

/// The snapshot that a manager holds after an update with `new_data`: the new
/// entries where no update was under way, else the snapshot that it held.
pub open spec fn spec_current_after_update(
    current: Map<Seq<u8>, Seq<u8>>,
    new_data: Map<Seq<u8>, Seq<u8>>,
    state: BuilderState,
) -> Map<Seq<u8>, Seq<u8>> {
    match state {
        BuilderState::Empty => new_data,
        BuilderState::Updating => current,
    }
}

/// A handle keeps its snapshot. Let a handle be made by a manager, and let the
/// manager then go through an update. The handle still looks up what the
/// manager held when the handle was made, while a handle made after a finished
/// update looks up the new entries.
pub proof fn lemma_handle_outlives_update<L: OakLogger + Clone>(
    before: LookupDataManager<L>,
    after: LookupDataManager<L>,
    handle: LookupData<L>,
    later_handle: LookupData<L>,
    new_data: Data,
    key: Seq<u8>,
)
    requires
        handle@ == before.spec_current(),
        after.spec_current() == spec_current_after_update(
            before.spec_current(),
            new_data@,
            before.spec_builder_state(),
        ),
        later_handle@ == after.spec_current(),
    ensures
        spec_lookup(handle@, key) == spec_lookup(before.spec_current(), key),
        before.spec_builder_state() == BuilderState::Empty ==> spec_lookup(later_handle@, key)
            == spec_lookup(new_data@, key),
        before.spec_builder_state() == BuilderState::Updating ==> spec_lookup(later_handle@, key)
            == spec_lookup(handle@, key),
{
}

} // verus!
