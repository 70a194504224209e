//! The placeholder images that idle devices serve, one for each size.
use crate::daemon::error::{DaemonError, in_context};
use crate::daemon::protocol::UpperMode;
use crate::daemon::tables::ImageInfo;
use crate::fs_path::{
    DOT, FsPath, SLASH, components, join_text, lemma_ascii_bytes, lemma_join_text_injective,
    lossy_text, parent,
};
use crate::path_laws::{is_segment, lemma_components_join};
use crate::text::{
    decimal, decimal_text, joined, lemma_decimal_digits, lemma_decimal_injective,
    lemma_decimal_len,
};
use std::collections::HashMap;
use vstd::prelude::*;
use vstd::utf8::*;

verus! {

/// An opened placeholder image.
#[derive(Debug, Clone, Copy, PartialEq, Eq, Structural)]
pub struct OpenedImage {
    pub info: ImageInfo,
    /// The number under which the open image is kept.
    pub handle: usize,
}

/// A placeholder that was built: its configuration and the opened image.
#[derive(Debug)]
pub struct Placeholder {
    pub config_path: FsPath,
    pub image: OpenedImage,
}

impl Clone for Placeholder {
    fn clone(&self) -> (r: Self)
        ensures
            r.config_path@ == self.config_path@,
            r.image == self.image,
    {
        Placeholder { config_path: self.config_path.clone(), image: self.image }
    }
}

/// The file that holds the data of the placeholder of `virtual_size` bytes.
pub open spec fn data_path(dir: Seq<u8>, virtual_size: u64) -> Seq<u8> {
    join_text(dir, decimal(virtual_size as nat) + ".data"@)
}

/// The configuration file of the placeholder of `virtual_size` bytes.
pub open spec fn config_path(dir: Seq<u8>, virtual_size: u64) -> Seq<u8> {
    join_text(dir, decimal(virtual_size as nat) + ".json"@)
}

/// What is written to the configuration file of a placeholder: an image
/// without lower layers whose data is one sparse file.
#[derive(Debug)]
pub struct PlaceholderConfig {
    pub lowers: Vec<FsPath>,
    pub upper_mode: UpperMode,
    pub upper_data: String,
}

/// The steps that build a placeholder, in order.
#[derive(Debug, Clone, Copy, PartialEq, Eq, Structural)]
pub enum BuildStage {
    CreateDir,
    PrepareUpper,
    Serialize,
    WriteConfig,
    OpenImage,
}

/// The step after `stage`; `None` when the placeholder is built.
pub open spec fn build_following(stage: BuildStage) -> Option<BuildStage> {
    match stage {
        BuildStage::CreateDir => Some(BuildStage::PrepareUpper),
        BuildStage::PrepareUpper => Some(BuildStage::Serialize),
        BuildStage::Serialize => Some(BuildStage::WriteConfig),
        BuildStage::WriteConfig => Some(BuildStage::OpenImage),
        BuildStage::OpenImage => None,
    }
}

impl BuildStage {
    /// The step after this one; `None` when the placeholder is built.
    pub fn next(self) -> (r: Option<BuildStage>)
        ensures
            r == build_following(self),
            self is CreateDir ==> r == Some(BuildStage::PrepareUpper),
            self is PrepareUpper ==> r == Some(BuildStage::Serialize),
            self is Serialize ==> r == Some(BuildStage::WriteConfig),
            self is WriteConfig ==> r == Some(BuildStage::OpenImage),
            self is OpenImage ==> r is None,
    {
        match self {
            BuildStage::CreateDir => Some(BuildStage::PrepareUpper),
            BuildStage::PrepareUpper => Some(BuildStage::Serialize),
            BuildStage::Serialize => Some(BuildStage::WriteConfig),
            BuildStage::WriteConfig => Some(BuildStage::OpenImage),
            BuildStage::OpenImage => None,
        }
    }
}

/// What a failed step says it was doing.
pub open spec fn build_context(dir: Seq<u8>, virtual_size: u64, stage: BuildStage) -> Seq<char> {
    match stage {
        BuildStage::CreateDir => "create pool placeholder dir "@ + lossy_text(dir),
        BuildStage::PrepareUpper => "create placeholder upper "@ + lossy_text(
            data_path(dir, virtual_size),
        ),
        BuildStage::Serialize => "serialize placeholder image config"@,
        BuildStage::WriteConfig => "write placeholder config "@ + lossy_text(
            config_path(dir, virtual_size),
        ),
        BuildStage::OpenImage => "open placeholder image "@ + lossy_text(
            config_path(dir, virtual_size),
        ),
    }
}

/// One step of building a placeholder.
#[derive(Debug)]
pub enum BuildAction {
    /// The directory and what is above it are made where they are missing.
    CreateDir { path: FsPath },
    /// The data file of an empty image of this many bytes is made.
    PrepareUpper { path: FsPath, virtual_size: u64, mode: UpperMode },
    /// The configuration is put into its serialized form.
    Serialize(PlaceholderConfig),
    /// The serialized configuration is written.
    WriteConfig { path: FsPath },
    /// The image is opened from its configuration.
    OpenImage { path: FsPath },
}

/// The model of what is written to the configuration file of a placeholder.
#[verifier::ext_equal]
pub struct ConfigView {
    pub lowers: Seq<Seq<u8>>,
    pub upper_mode: UpperMode,
    pub upper_data: Seq<char>,
}

impl View for PlaceholderConfig {
    type V = ConfigView;

    open spec fn view(&self) -> ConfigView {
        ConfigView {
            lowers: self.lowers@.map_values(|p: FsPath| p@),
            upper_mode: self.upper_mode,
            upper_data: self.upper_data@,
        }
    }
}

/// The configuration of the placeholder of `virtual_size` bytes: no lower
/// layers, and one sparse file.
pub open spec fn placeholder_config(dir: Seq<u8>, virtual_size: u64) -> ConfigView {
    ConfigView {
        lowers: Seq::empty(),
        upper_mode: UpperMode::Sparse,
        upper_data: lossy_text(data_path(dir, virtual_size)),
    }
}

/// The placeholder of `virtual_size` bytes where `built` are those that were
/// built: its configuration file and the opened image.
pub open spec fn placeholder_found(
    built: Map<u64, OpenedImage>,
    dir: Seq<u8>,
    virtual_size: u64,
) -> Option<(Seq<u8>, OpenedImage)> {
    if built.contains_key(virtual_size) {
        Some((config_path(dir, virtual_size), built[virtual_size]))
    } else {
        None
    }
}

/// The placeholders that were built, by size.
#[derive(Debug)]
pub struct PlaceholderTable {
    dir: FsPath,
    built: HashMap<u64, Placeholder>,
}

impl View for PlaceholderTable {
    type V = Map<u64, OpenedImage>;

    closed spec fn view(&self) -> Map<u64, OpenedImage> {
        self.built@.map_values(|p: Placeholder| p.image)
    }
}

impl PlaceholderTable {
    /// The directory of the placeholder files.
    pub closed spec fn spec_dir(&self) -> Seq<u8> {
        self.dir@
    }

    /// Every placeholder has the configuration file of its size.
    pub closed spec fn inv(&self) -> bool {
        forall|size: u64| #[trigger]
            self.built@.contains_key(size) ==> self.built@[size].config_path@ == config_path(
                self.dir@,
                size,
            )
    }

    /// A table in which no placeholder was built yet.
    pub fn new(dir: FsPath) -> (r: PlaceholderTable)
        ensures
            r.inv(),
            r@ == Map::<u64, OpenedImage>::empty(),
            r.spec_dir() == dir@,
    {
        broadcast use vstd::std_specs::hash::group_hash_axioms;

        let r = PlaceholderTable { dir, built: HashMap::new() };
        assert(r@ =~= Map::<u64, OpenedImage>::empty());
        r
    }

    /// The placeholder of `virtual_size` bytes, where it was built.
    pub fn lookup(&self, virtual_size: u64) -> (r: Option<Placeholder>)
        requires
            self.inv(),
        ensures
            match placeholder_found(self@, self.spec_dir(), virtual_size) {
                Some((path, image)) => r matches Some(p) && p.config_path@ == path && p.image
                    == image,
                None => r is None,
            },
    {
        broadcast use vstd::std_specs::hash::group_hash_axioms;

        match self.built.get(&virtual_size) {
            Some(p) => Some(p.clone()),
            None => None,
        }
    }

    /// The directory that is made before the first placeholder.
    pub fn dir(&self) -> (r: FsPath)
        ensures
            r@ == self.spec_dir(),
    {
        self.dir.clone()
    }

    /// The file that holds the data of the placeholder of `virtual_size` bytes.
    pub fn data_path(&self, virtual_size: u64) -> (r: FsPath)
        ensures
            r@ == data_path(self.spec_dir(), virtual_size),
            r@ == join_text(self.spec_dir(), decimal(virtual_size as nat) + ".data"@),
    {
        let name: String = joined(decimal_text(virtual_size).as_str(), ".data");
        self.dir.join_text(name.as_str())
    }

    /// The configuration file of the placeholder of `virtual_size` bytes.
    pub fn config_path(&self, virtual_size: u64) -> (r: FsPath)
        ensures
            r@ == config_path(self.spec_dir(), virtual_size),
            r@ == join_text(self.spec_dir(), decimal(virtual_size as nat) + ".json"@),
    {
        let name: String = joined(decimal_text(virtual_size).as_str(), ".json");
        self.dir.join_text(name.as_str())
    }

    /// What is written to the configuration file of the placeholder of
    /// `virtual_size` bytes.
    pub fn config(&self, virtual_size: u64) -> (r: PlaceholderConfig)
        ensures
            r@ == placeholder_config(self.spec_dir(), virtual_size),
            r.lowers@.len() == 0,
            r.upper_mode == UpperMode::Sparse,
            r.upper_data@ == lossy_text(
                join_text(self.spec_dir(), decimal(virtual_size as nat) + ".data"@),
            ),
    {
        let r = PlaceholderConfig {
            lowers: Vec::new(),
            upper_mode: UpperMode::Sparse,
            upper_data: self.data_path(virtual_size).to_text_lossy(),
        };
        assert(r@ =~= placeholder_config(self.spec_dir(), virtual_size));
        r
    }

    /// What is done in a step of building the placeholder of `virtual_size`
    /// bytes.
    pub fn build_action(&self, virtual_size: u64, stage: BuildStage) -> (r: BuildAction)
        ensures
            match stage {
                BuildStage::CreateDir => r matches BuildAction::CreateDir { path } && path@
                    == self.spec_dir(),
                BuildStage::PrepareUpper => {
                    &&& r matches BuildAction::PrepareUpper { path, virtual_size: size, mode }
                    &&& path@ == data_path(self.spec_dir(), virtual_size)
                    &&& size == virtual_size
                    &&& mode == UpperMode::Sparse
                },
                BuildStage::Serialize => r matches BuildAction::Serialize(config) && config@
                    == placeholder_config(self.spec_dir(), virtual_size),
                BuildStage::WriteConfig => r matches BuildAction::WriteConfig { path } && path@
                    == config_path(self.spec_dir(), virtual_size),
                BuildStage::OpenImage => r matches BuildAction::OpenImage { path } && path@
                    == config_path(self.spec_dir(), virtual_size),
            },
    {
        match stage {
            BuildStage::CreateDir => BuildAction::CreateDir { path: self.dir() },
            BuildStage::PrepareUpper => BuildAction::PrepareUpper {
                path: self.data_path(virtual_size),
                virtual_size,
                mode: UpperMode::Sparse,
            },
            BuildStage::Serialize => BuildAction::Serialize(self.config(virtual_size)),
            BuildStage::WriteConfig => BuildAction::WriteConfig {
                path: self.config_path(virtual_size),
            },
            BuildStage::OpenImage => BuildAction::OpenImage {
                path: self.config_path(virtual_size),
            },
        }
    }

    /// The error of a placeholder that could not be built.
    pub fn build_failed(&self, virtual_size: u64, stage: BuildStage, error: DaemonError) -> (r:
        DaemonError)
        ensures
            r@ == in_context(build_context(self.spec_dir(), virtual_size, stage), error@),
    {
        let context: String = match stage {
            BuildStage::CreateDir => joined(
                "create pool placeholder dir ",
                self.dir.to_text_lossy().as_str(),
            ),
            BuildStage::PrepareUpper => joined(
                "create placeholder upper ",
                self.data_path(virtual_size).to_text_lossy().as_str(),
            ),
            BuildStage::Serialize => "serialize placeholder image config".to_owned(),
            BuildStage::WriteConfig => joined(
                "write placeholder config ",
                self.config_path(virtual_size).to_text_lossy().as_str(),
            ),
            BuildStage::OpenImage => joined(
                "open placeholder image ",
                self.config_path(virtual_size).to_text_lossy().as_str(),
            ),
        };
        error.context(context.as_str())
    }

    /// Records the placeholder of `virtual_size` bytes that was built and opened
    /// as `image`. How many blocks the image has is the answer of whoever opened
    /// it, and is kept as it is.
    pub fn register(&mut self, virtual_size: u64, image: OpenedImage) -> (r: Placeholder)
        requires
            old(self).inv(),
        ensures
            final(self).inv(),
            final(self)@ == old(self)@.insert(virtual_size, image),
            final(self).spec_dir() == old(self).spec_dir(),
            r.image == image,
            r.config_path@ == config_path(old(self).spec_dir(), virtual_size),
            final(self)@.contains_key(virtual_size) && final(self)@[virtual_size] == image,
            forall|other: u64|
                other != virtual_size ==> #[trigger] final(self)@.contains_key(other) == old(
                    self,
                )@.contains_key(other) && final(self)@[other] == old(self)@[other],
    {
        broadcast use vstd::std_specs::hash::group_hash_axioms;

        let built: Placeholder = Placeholder { config_path: self.config_path(virtual_size), image };
        let r: Placeholder = built.clone();
        self.built.insert(virtual_size, built);
        assert(self@ =~= old(self)@.insert(virtual_size, image));
        r
    }
}

/// Placeholders of different sizes have different files.
pub proof fn law_placeholder_files_differ(dir: Seq<u8>, a: u64, b: u64)
    requires
        a != b,
    ensures
        config_path(dir, a) != config_path(dir, b),
        data_path(dir, a) != data_path(dir, b),
{
    let da = decimal(a as nat);
    let db = decimal(b as nat);
    lemma_decimal_len(a as nat);
    lemma_decimal_len(b as nat);
    reveal_strlit(".json");
    reveal_strlit(".data");
    if config_path(dir, a) == config_path(dir, b) {
        lemma_join_text_injective(dir, da + ".json"@, db + ".json"@);
        assert((da + ".json"@).take(da.len() as int) =~= da);
        assert((db + ".json"@).take(db.len() as int) =~= db);
        lemma_decimal_injective(a as nat, b as nat);
    }
    if data_path(dir, a) == data_path(dir, b) {
        lemma_join_text_injective(dir, da + ".data"@, db + ".data"@);
        assert((da + ".data"@).take(da.len() as int) =~= da);
        assert((db + ".data"@).take(db.len() as int) =~= db);
        lemma_decimal_injective(a as nat, b as nat);
    }
}

/// A data file is no configuration file, whatever their sizes.
proof fn lemma_data_is_no_config(dir: Seq<u8>, a: u64, b: u64)
    ensures
        data_path(dir, a) != config_path(dir, b),
{
    let data = decimal(a as nat) + ".data"@;
    let config = decimal(b as nat) + ".json"@;
    lemma_decimal_len(a as nat);
    lemma_decimal_len(b as nat);
    reveal_strlit(".json");
    reveal_strlit(".data");
    if data_path(dir, a) == config_path(dir, b) {
        lemma_join_text_injective(dir, data, config);
        assert(data.last() == 'a');
        assert(config.last() == 'n');
    }
}

/// The name of the configuration file is one component.
proof fn lemma_config_name(virtual_size: u64)
    ensures
        is_segment(encode_utf8(decimal(virtual_size as nat) + ".json"@)),
{
    let digits = decimal(virtual_size as nat);
    let name = digits + ".json"@;
    lemma_decimal_len(virtual_size as nat);
    lemma_decimal_digits(virtual_size as nat);
    reveal_strlit(".json");
    assert forall|k: int| 0 <= k < name.len() implies (#[trigger] name[k] as u32) < 0x80 && name[k]
        != '/' by {
        if k < digits.len() {
            assert(name[k] == digits[k]);
        }
    }
    lemma_ascii_bytes(name);
    let bytes = encode_utf8(name);
    assert forall|k: int| 0 <= k < bytes.len() implies #[trigger] bytes[k] != SLASH by {
        assert(bytes[k] == name[k] as u8);
    }
    assert(name[0] == digits[0]);
    assert(bytes[0] == name[0] as u8);
    assert(bytes[0] != DOT);
}

/// What is in a file of a placeholder.
#[verifier::ext_equal]
pub enum PlaceholderFile {
    /// An empty image of this many bytes.
    Data { virtual_size: u64, mode: UpperMode },
    Config(ConfigView),
}

/// The files of the placeholders, by path, and the placeholders that were built.
#[verifier::ext_equal]
pub struct PlaceholderWorld {
    pub files: Map<Seq<u8>, PlaceholderFile>,
    pub built: Map<u64, OpenedImage>,
}

/// The files after a step of building a placeholder succeeded.
pub open spec fn build_effect(
    files: Map<Seq<u8>, PlaceholderFile>,
    dir: Seq<u8>,
    virtual_size: u64,
    stage: BuildStage,
) -> Map<Seq<u8>, PlaceholderFile> {
    match stage {
        BuildStage::PrepareUpper => files.insert(
            data_path(dir, virtual_size),
            PlaceholderFile::Data { virtual_size, mode: UpperMode::Sparse },
        ),
        BuildStage::WriteConfig => files.insert(
            config_path(dir, virtual_size),
            PlaceholderFile::Config(placeholder_config(dir, virtual_size)),
        ),
        _ => files,
    }
}

/// The files after `stage` and every step after it succeeded.
pub open spec fn built_from(
    files: Map<Seq<u8>, PlaceholderFile>,
    dir: Seq<u8>,
    virtual_size: u64,
    stage: BuildStage,
) -> Map<Seq<u8>, PlaceholderFile>
    decreases
            (match stage {
                BuildStage::CreateDir => 4int,
                BuildStage::PrepareUpper => 3int,
                BuildStage::Serialize => 2int,
                BuildStage::WriteConfig => 1int,
                BuildStage::OpenImage => 0int,
            }),
{
    let after = build_effect(files, dir, virtual_size, stage);
    match build_following(stage) {
        Some(next) => built_from(after, dir, virtual_size, next),
        None => after,
    }
}

/// `after` is what `before` becomes when the placeholder of `virtual_size` bytes
/// is built and opened as `image`.
pub open spec fn build_done(
    before: PlaceholderWorld,
    dir: Seq<u8>,
    virtual_size: u64,
    image: OpenedImage,
    after: PlaceholderWorld,
) -> bool {
    &&& after.files == built_from(before.files, dir, virtual_size, BuildStage::CreateDir)
    &&& after.built == before.built.insert(virtual_size, image)
}

/// `after` is what `before` can become when the placeholder of `virtual_size`
/// bytes is asked for, whether it was there, was built or could not be built: no
/// other file is touched, and no other placeholder.
pub open spec fn build_tried(
    before: PlaceholderWorld,
    dir: Seq<u8>,
    virtual_size: u64,
    after: PlaceholderWorld,
) -> bool {
    &&& forall|path: Seq<u8>|
        path != data_path(dir, virtual_size) && path != config_path(dir, virtual_size) ==> (
        #[trigger] after.files.contains_key(path) <==> before.files.contains_key(path))
    &&& forall|path: Seq<u8>|
        path != data_path(dir, virtual_size) && path != config_path(dir, virtual_size)
            ==> #[trigger] after.files[path] == before.files[path]
    &&& after.built == before.built || after.built == before.built.insert(
        virtual_size,
        after.built[virtual_size],
    )
}

/// A build that succeeds is one that touches no other file and no other
/// placeholder.
pub proof fn law_build_touches_its_own_files(
    before: PlaceholderWorld,
    dir: Seq<u8>,
    virtual_size: u64,
    image: OpenedImage,
    after: PlaceholderWorld,
)
    requires
        build_done(before, dir, virtual_size, image, after),
    ensures
        build_tried(before, dir, virtual_size, after),
{
    reveal_with_fuel(built_from, 5);
}

/// A placeholder that was built stays: whatever other sizes are asked for
/// afterwards, it is found again with the same configuration file and the same
/// open image. Its configuration is a file in the placeholder directory that
/// names no lower layers, its data file is there, and no other size has its
/// files.
pub proof fn law_placeholder_is_kept(
    before: PlaceholderWorld,
    dir: Seq<u8>,
    virtual_size: u64,
    image: OpenedImage,
    worlds: Seq<PlaceholderWorld>,
    sizes: Seq<u64>,
)
    requires
        worlds.len() == sizes.len() + 1,
        build_done(before, dir, virtual_size, image, worlds[0]),
        forall|i: int|
            0 <= i < sizes.len() ==> sizes[i] != virtual_size && #[trigger] build_tried(
                worlds[i],
                dir,
                sizes[i],
                worlds[i + 1],
            ),
    ensures
        ({
            let path = config_path(dir, virtual_size);
            let last = worlds.last();
            &&& placeholder_found(last.built, dir, virtual_size) == Some((path, image))
            &&& components(path) == components(dir).push(
                encode_utf8(decimal(virtual_size as nat) + ".json"@),
            )
            &&& last.files.contains_key(path)
            &&& last.files[path] == PlaceholderFile::Config(placeholder_config(dir, virtual_size))
            &&& placeholder_config(dir, virtual_size).lowers.len() == 0
            &&& last.files.contains_key(data_path(dir, virtual_size))
            &&& last.files[data_path(dir, virtual_size)] == (PlaceholderFile::Data {
                virtual_size,
                mode: UpperMode::Sparse,
            })
            &&& forall|i: int|
                0 <= i < sizes.len() ==> config_path(dir, #[trigger] sizes[i]) != path
                    && data_path(dir, sizes[i]) != data_path(dir, virtual_size)
        }),
    decreases sizes.len(),
{
    let path = config_path(dir, virtual_size);
    let data = data_path(dir, virtual_size);
    lemma_config_name(virtual_size);
    lemma_components_join(dir, encode_utf8(decimal(virtual_size as nat) + ".json"@));
    assert forall|i: int| 0 <= i < sizes.len() implies config_path(dir, #[trigger] sizes[i]) != path
        && data_path(dir, sizes[i]) != data by {
        assert(build_tried(worlds[i], dir, sizes[i], worlds[i + 1]));
        law_placeholder_files_differ(dir, sizes[i], virtual_size);
    }
    if sizes.len() == 0 {
        reveal_with_fuel(built_from, 5);
        lemma_data_is_no_config(dir, virtual_size, virtual_size);
    } else {
        let n = sizes.len() as int - 1;
        let fewer = sizes.drop_last();
        assert forall|i: int| 0 <= i < fewer.len() implies fewer[i] != virtual_size
            && #[trigger] build_tried(
            worlds.drop_last()[i],
            dir,
            fewer[i],
            worlds.drop_last()[i + 1],
        ) by {
            assert(build_tried(worlds[i], dir, sizes[i], worlds[i + 1]));
        }
        law_placeholder_is_kept(before, dir, virtual_size, image, worlds.drop_last(), fewer);
        assert(build_tried(worlds[n], dir, sizes[n], worlds[n + 1]));
        assert(config_path(dir, sizes[n]) != path);
        lemma_data_is_no_config(dir, sizes[n], virtual_size);
        lemma_data_is_no_config(dir, virtual_size, sizes[n]);
        assert(worlds.drop_last().last() == worlds[n]);
        assert(worlds.last() == worlds[n + 1]);
        assert(worlds[n + 1].files[path] == worlds[n].files[path]);
        assert(worlds[n + 1].files[data] == worlds[n].files[data]);
    }
}

/// The directory of the placeholder files of a daemon with the control socket
/// `socket`.
pub open spec fn placeholder_dir(socket: Seq<u8>, temp_dir: Seq<u8>) -> Seq<u8> {
    join_text(
        match parent(socket) {
            Some(dir) => dir,
            None => temp_dir,
        },
        "overlaybd-pool-placeholders"@,
    )
}

/// The directory of the placeholder files: beside the control socket, or in
/// `temp_dir` where the socket has no directory.
pub fn pool_placeholder_dir(socket: &FsPath, temp_dir: &FsPath) -> (r: FsPath)
    ensures
        r@ == placeholder_dir(socket@, temp_dir@),
        parent(socket@) matches Some(dir) ==> r@ == join_text(dir, "overlaybd-pool-placeholders"@),
        parent(socket@) is None ==> r@ == join_text(temp_dir@, "overlaybd-pool-placeholders"@),
{
    match socket.parent() {
        Some(dir) => dir.join_text("overlaybd-pool-placeholders"),
        None => temp_dir.join_text("overlaybd-pool-placeholders"),
    }
}

} // verus!
