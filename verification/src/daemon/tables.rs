//! The concurrent tables of the daemon, held in `dashmap::DashMap`, and what
//! their operations do to the contents.
use crate::fs_path::FsPath;
use dashmap::DashMap;
use vstd::prelude::*;

verus! {

/// `dashmap::DashMap`, a hash map that is shared between threads.
#[verifier::external_type_specification]
#[verifier::external_body]
#[verifier::reject_recursive_types(K)]
#[verifier::reject_recursive_types(V)]
#[verifier::reject_recursive_types(S)]
pub struct ExDashMap<K, V, S>(dashmap::DashMap<K, V, S>);

/// What the daemon knows of an opened image.
#[derive(Debug, Clone, Copy, PartialEq, Eq, Structural)]
pub struct ImageInfo {
    /// The virtual size in bytes.
    pub size_bytes: u64,
    /// The virtual size in logical blocks.
    pub sectors: u64,
    pub read_only: bool,
}

/// A block device: its number and the path of its node.
#[derive(Debug)]
pub struct Device {
    pub id: u32,
    pub path: FsPath,
}

/// The model of a device.
#[verifier::ext_equal]
pub struct DeviceView {
    pub id: u32,
    pub path: Seq<u8>,
}

impl View for Device {
    type V = DeviceView;

    open spec fn view(&self) -> DeviceView {
        DeviceView { id: self.id, path: self.path@ }
    }
}

impl Clone for Device {
    fn clone(&self) -> (r: Self)
        ensures
            r@ == self@,
    {
        Device { id: self.id, path: self.path.clone() }
    }
}

/// What a device serves.
#[derive(Debug)]
pub enum Target {
    /// A copy-on-write pair of files.
    Cow,
    /// An image opened from a configuration file.
    Image { image_config: FsPath, image: ImageInfo },
}

/// The model of a target.
#[verifier::ext_equal]
pub enum TargetView {
    Cow,
    Image { image_config: Seq<u8>, image: ImageInfo },
}

impl View for Target {
    type V = TargetView;

    open spec fn view(&self) -> TargetView {
        match *self {
            Target::Cow => TargetView::Cow,
            Target::Image { image_config, image } => TargetView::Image {
                image_config: image_config@,
                image,
            },
        }
    }
}

impl Clone for Target {
    fn clone(&self) -> (r: Self)
        ensures
            r@ == self@,
    {
        match self {
            Target::Cow => Target::Cow,
            Target::Image { image_config, image } => Target::Image {
                image_config: image_config.clone(),
                image: *image,
            },
        }
    }
}

/// A device together with what it serves.
#[derive(Debug)]
pub struct DeviceRecord {
    pub device: Device,
    pub target: Target,
}

/// The model of a device record.
#[verifier::ext_equal]
pub struct RecordView {
    pub device: DeviceView,
    pub target: TargetView,
}

impl View for DeviceRecord {
    type V = RecordView;

    open spec fn view(&self) -> RecordView {
        RecordView { device: self.device@, target: self.target@ }
    }
}

impl Clone for DeviceRecord {
    fn clone(&self) -> (r: Self)
        ensures
            r@ == self@,
    {
        DeviceRecord { device: self.device.clone(), target: self.target.clone() }
    }
}

/// A device that several holders share.
#[derive(Debug)]
pub struct ActiveShared {
    pub device: Device,
    pub image_config: FsPath,
    pub image: ImageInfo,
    /// How many holders there are.
    pub refcount: usize,
}

/// The model of a shared device.
#[verifier::ext_equal]
pub struct SharedView {
    pub device: DeviceView,
    pub image_config: Seq<u8>,
    pub image: ImageInfo,
    pub refcount: usize,
}

impl View for ActiveShared {
    type V = SharedView;

    open spec fn view(&self) -> SharedView {
        SharedView {
            device: self.device@,
            image_config: self.image_config@,
            image: self.image,
            refcount: self.refcount,
        }
    }
}

impl Clone for ActiveShared {
    fn clone(&self) -> (r: Self)
        ensures
            r@ == self@,
    {
        ActiveShared {
            device: self.device.clone(),
            image_config: self.image_config.clone(),
            image: self.image,
            refcount: self.refcount,
        }
    }
}

/// What a shared device is found by: the canonical spellings of its image
/// configuration and of its global configuration.
pub type SharedKey = (Vec<u8>, Vec<u8>);

/// The model of a shared key.
pub type KeyView = (Seq<u8>, Seq<u8>);

/// The model of `key`.
pub open spec fn key_view(key: SharedKey) -> KeyView {
    (key.0@, key.1@)
}

/// A table of device records with nothing in it.
pub open spec fn no_records() -> Map<u32, RecordView> {
    Map::empty()
}

/// A table of shared devices with nothing in it.
pub open spec fn none_shared() -> Map<KeyView, SharedView> {
    Map::empty()
}

/// An index with nothing in it.
pub open spec fn no_index() -> Map<u32, KeyView> {
    Map::empty()
}

/// What a table of device records holds.
pub uninterp spec fn record_contents(table: DashMap<u32, DeviceRecord>) -> Map<u32, RecordView>;

/// What the table of shared devices holds.
pub uninterp spec fn shared_contents(table: DashMap<SharedKey, ActiveShared>) -> Map<
    KeyView,
    SharedView,
>;

/// What the index from device numbers to shared keys holds.
pub uninterp spec fn index_contents(table: DashMap<u32, SharedKey>) -> Map<u32, KeyView>;

/// `dashmap::DashMap::new`: the table holds nothing.
#[verifier::external_body]
pub(crate) fn records_new() -> (r: DashMap<u32, DeviceRecord>)
    ensures
        record_contents(r) == no_records(),
{
    DashMap::new()
}

/// `dashmap::DashMap::insert`: afterwards the key has the given value, and
/// every other key has what it had. The value that the key had before is
/// handed back.
#[verifier::external_body]
pub(crate) fn records_insert(
    table: &mut DashMap<u32, DeviceRecord>,
    id: u32,
    record: DeviceRecord,
) -> (r: Option<DeviceRecord>)
    ensures
        r is Some <==> record_contents(*old(table)).contains_key(id),
        r matches Some(before) ==> before@ == record_contents(*old(table))[id],
        record_contents(*final(table)) == record_contents(*old(table)).insert(id, record@),
{
    table.insert(id, record)
}

/// `dashmap::DashMap::get`: a copy of the value of the key, where it has one.
#[verifier::external_body]
pub(crate) fn records_get(table: &DashMap<u32, DeviceRecord>, id: u32) -> (r: Option<DeviceRecord>)
    ensures
        r is Some <==> record_contents(*table).contains_key(id),
        r matches Some(record) ==> record@ == record_contents(*table)[id],
{
    table.get(&id).map(|entry| entry.value().clone())
}

/// `dashmap::DashMap::remove`: the value of the key is taken out, where it has
/// one; every other key has what it had.
#[verifier::external_body]
pub(crate) fn records_remove(table: &mut DashMap<u32, DeviceRecord>, id: u32) -> (r: Option<
    DeviceRecord,
>)
    ensures
        r is Some <==> record_contents(*old(table)).contains_key(id),
        r matches Some(record) ==> record@ == record_contents(*old(table))[id],
        record_contents(*final(table)) == record_contents(*old(table)).remove(id),
{
    table.remove(&id).map(|entry| entry.1)
}

/// `dashmap::DashMap::iter`: every key of the table, each once, in an order
/// that is left open.
#[verifier::external_body]
pub(crate) fn records_keys(table: &DashMap<u32, DeviceRecord>) -> (r: Vec<u32>)
    ensures
        r@.no_duplicates(),
        forall|id: u32| #[trigger] r@.contains(id) <==> record_contents(*table).contains_key(id),
{
    table.iter().map(|entry| *entry.key()).collect()
}

/// `dashmap::DashMap::new`: the table holds nothing.
#[verifier::external_body]
pub(crate) fn shared_new() -> (r: DashMap<SharedKey, ActiveShared>)
    ensures
        shared_contents(r) == none_shared(),
{
    DashMap::new()
}

/// `dashmap::DashMap::insert`: afterwards the key has the given value, and
/// every other key has what it had. The value that the key had before is
/// handed back.
#[verifier::external_body]
pub(crate) fn shared_insert(
    table: &mut DashMap<SharedKey, ActiveShared>,
    key: SharedKey,
    active: ActiveShared,
) -> (r: Option<ActiveShared>)
    ensures
        r is Some <==> shared_contents(*old(table)).contains_key(key_view(key)),
        r matches Some(before) ==> before@ == shared_contents(*old(table))[key_view(key)],
        shared_contents(*final(table)) == shared_contents(*old(table)).insert(
            key_view(key),
            active@,
        ),
{
    table.insert(key, active)
}

/// `dashmap::DashMap::get`: a copy of the value of the key, where it has one.
#[verifier::external_body]
pub(crate) fn shared_get(table: &DashMap<SharedKey, ActiveShared>, key: &SharedKey) -> (r: Option<
    ActiveShared,
>)
    ensures
        r is Some <==> shared_contents(*table).contains_key(key_view(*key)),
        r matches Some(active) ==> active@ == shared_contents(*table)[key_view(*key)],
{
    table.get(key).map(|entry| entry.value().clone())
}

/// `dashmap::DashMap::remove`: the value of the key is taken out, where it has
/// one; every other key has what it had.
#[verifier::external_body]
pub(crate) fn shared_remove(table: &mut DashMap<SharedKey, ActiveShared>, key: &SharedKey) -> (r:
    Option<ActiveShared>)
    ensures
        r is Some <==> shared_contents(*old(table)).contains_key(key_view(*key)),
        r matches Some(active) ==> active@ == shared_contents(*old(table))[key_view(*key)],
        shared_contents(*final(table)) == shared_contents(*old(table)).remove(key_view(*key)),
{
    table.remove(key).map(|entry| entry.1)
}

/// `dashmap::DashMap::iter`: every key of the table, each once, in an order
/// that is left open.
#[verifier::external_body]
pub(crate) fn shared_keys(table: &DashMap<SharedKey, ActiveShared>) -> (r: Vec<SharedKey>)
    ensures
        forall|i: int, j: int|
            0 <= i < j < r@.len() ==> key_view(#[trigger] r@[i]) != key_view(#[trigger] r@[j]),
        forall|i: int|
            0 <= i < r@.len() ==> shared_contents(*table).contains_key(
                key_view(#[trigger] r@[i]),
            ),
        forall|k: KeyView| #[trigger]
            shared_contents(*table).contains_key(k) ==> exists|i: int|
                0 <= i < r@.len() && key_view(#[trigger] r@[i]) == k,
{
    table.iter().map(|entry| entry.key().clone()).collect()
}

/// `dashmap::DashMap::new`: the table holds nothing.
#[verifier::external_body]
pub(crate) fn index_new() -> (r: DashMap<u32, SharedKey>)
    ensures
        index_contents(r) == no_index(),
{
    DashMap::new()
}

/// `dashmap::DashMap::insert`: afterwards the key has the given value, and
/// every other key has what it had. The value that the key had before is
/// handed back.
#[verifier::external_body]
pub(crate) fn index_insert(table: &mut DashMap<u32, SharedKey>, id: u32, key: SharedKey) -> (r:
    Option<SharedKey>)
    ensures
        r is Some <==> index_contents(*old(table)).contains_key(id),
        r matches Some(before) ==> key_view(before) == index_contents(*old(table))[id],
        index_contents(*final(table)) == index_contents(*old(table)).insert(id, key_view(key)),
{
    table.insert(id, key)
}

/// `dashmap::DashMap::get`: a copy of the value of the key, where it has one.
#[verifier::external_body]
pub(crate) fn index_get(table: &DashMap<u32, SharedKey>, id: u32) -> (r: Option<SharedKey>)
    ensures
        r is Some <==> index_contents(*table).contains_key(id),
        r matches Some(key) ==> key_view(key) == index_contents(*table)[id],
{
    table.get(&id).map(|entry| entry.value().clone())
}

/// `dashmap::DashMap::remove`: the value of the key is taken out, where it has
/// one; every other key has what it had.
#[verifier::external_body]
pub(crate) fn index_remove(table: &mut DashMap<u32, SharedKey>, id: u32) -> (r: Option<SharedKey>)
    ensures
        r is Some <==> index_contents(*old(table)).contains_key(id),
        r matches Some(key) ==> key_view(key) == index_contents(*old(table))[id],
        index_contents(*final(table)) == index_contents(*old(table)).remove(id),
{
    table.remove(&id).map(|entry| entry.1)
}

/// The models of a list of devices.
pub open spec fn device_views(list: Seq<Device>) -> Seq<DeviceView> {
    list.map_values(|d: Device| d@)
}

/// `list` holds the device of every record once, in some order.
pub open spec fn lists_records(list: Seq<DeviceView>, records: Map<u32, RecordView>) -> bool {
    exists|ids: Seq<u32>|
        {
            &&& #[trigger] ids.no_duplicates()
            &&& forall|id: u32| ids.contains(id) <==> records.contains_key(id)
            &&& list == ids.map_values(|id: u32| records[id].device)
        }
}

/// Takes every record out of a table.
pub(crate) fn drain_records(table: &mut DashMap<u32, DeviceRecord>) -> (r: Vec<Device>)
    ensures
        record_contents(*final(table)) == no_records(),
        lists_records(device_views(r@), record_contents(*old(table))),
{
    let ids: Vec<u32> = records_keys(table);
    let mut r: Vec<Device> = Vec::new();
    let mut i: usize = 0;
    let ghost before = record_contents(*old(table));
    while i < ids.len()
        invariant
            i <= ids@.len(),
            r@.len() == i,
            before == record_contents(*old(table)),
            ids@.no_duplicates(),
            forall|id: u32| #[trigger] ids@.contains(id) <==> before.contains_key(id),
            forall|id: u32| #[trigger]
                record_contents(*table).contains_key(id) <==> before.contains_key(id)
                    && !ids@.take(i as int).contains(id),
            forall|id: u32| #[trigger]
                record_contents(*table).contains_key(id) ==> record_contents(*table)[id]
                    == before[id],
            forall|k: int| 0 <= k < i ==> (#[trigger] r@[k])@ == before[ids@[k]].device,
        decreases ids@.len() - i,
    {
        let id: u32 = ids[i];
        let ghost taken = ids@.take(i as int);
        assert(ids@.take(i + 1) =~= taken.push(id));
        assert forall|other: u32| ids@.take(i + 1).contains(other) <==> taken.contains(other)
            || other == id by {
            if taken.contains(other) {
                let k = choose|k: int| 0 <= k < taken.len() && taken[k] == other;
                assert(ids@.take(i + 1)[k] == other);
            }
            if other == id {
                assert(ids@.take(i + 1)[i as int] == other);
            }
        }
        assert(ids@.contains(id));
        assert(!taken.contains(id)) by {
            if taken.contains(id) {
                let k = choose|k: int| 0 <= k < taken.len() && taken[k] == id;
                assert(ids@[k] == ids@[i as int]);
            }
        }
        if let Some(record) = records_remove(table, id) {
            r.push(record.device);
        }
        i = i + 1;
    }
    proof {
        assert(ids@.take(ids@.len() as int) =~= ids@);
        assert(record_contents(*table) =~= no_records());
        assert(device_views(r@) =~= ids@.map_values(|id: u32| before[id].device));
    }
    r
}

} // verus!
