//! The asset cooker: which asset types and source-file kinds are registered,
//! and the lookups the command line makes against the manifest.
use crate::assets::{AssetDescription, AssetSourceFileHandler};
use crate::assets::InitialAssetDescription;
use crate::manifest::{
    Manifest, adds_to, is_first_asset_named, is_first_file_holding, is_first_file_with_path, kept_from, no_asset_named,
    no_file_with_path, without_positions,
};
use crate::paths::{extension_of, has_no_separator, join, path_extension, path_join, path_with_extension, with_extension};
use vstd::prelude::*;

verus! {

/// A registered asset type.
pub struct CookerAssetRegistation {
    asset_type: String,
}

/// A registered kind of source file, known by its extension.
pub struct CookerSourceFileRegistration {
    extension: String,
}

/// The registry of asset types and source-file kinds; registration keeps each name once.
pub struct Cooker {
    asset_handlers: Vec<CookerAssetRegistation>,
    source_file_handler: Vec<CookerSourceFileRegistration>,
}

/// Why a command on a tracked source file failed.
#[derive(Debug)]
pub enum CliError {
    AssetSourceFileNotFound(String),
    AssetSourceFileExtensionInvalid(String),
    HandlerNotFound(String),
}

/// The cooking of one asset: the handler registered under `asset_type`
/// writes the cooked asset to the file at `output`.
pub struct CookJob {
    pub asset_type: String,
    pub output: String,
}

/// What cooking an asset by name comes to: the asset's position in the
/// manifest, the first tracked file that records it, and the cooking job
/// when its type has a registered handler.
pub struct CookTask {
    pub asset: usize,
    pub source_file: Option<usize>,
    pub job: Option<CookJob>,
}

/// Why cooking an asset failed: a value that had to be present was absent.
#[derive(Debug)]
pub enum ParsecError {
    NoneValue,
}

/// The directory cooked assets are written to.
pub const COOK_DIR: &'static str = "./assets/";

/// The extension of cooked asset files.
pub const COOKED_EXTENSION: &'static str = "asset";

proof fn lemma_push_to_set<A>(s: Seq<A>, x: A)
    ensures
        s.push(x).to_set() == s.to_set().insert(x),
{
    assert forall|a: A| s.push(x).contains(a) <==> s.to_set().insert(x).contains(a) by {
        if s.contains(a) {
            let i = choose|i: int| 0 <= i < s.len() && s[i] == a;
            assert(s.push(x)[i] == a);
        }
        if a == x {
            assert(s.push(x)[s.len() as int] == a);
        }
        if s.push(x).contains(a) {
            let i = choose|i: int| 0 <= i < s.len() + 1 && s.push(x)[i] == a;
            if i < s.len() {
                assert(s[i] == a);
            }
        }
    }
    assert(s.push(x).to_set() =~= s.to_set().insert(x));
}

impl Cooker {
    /// The registered asset type names.
    pub closed spec fn asset_types(&self) -> Set<Seq<char>> {
        self.asset_handlers@.map_values(|r: CookerAssetRegistation| r.asset_type@).to_set()
    }

    /// The registered source-file extensions.
    pub closed spec fn source_file_types(&self) -> Set<Seq<char>> {
        self.source_file_handler@.map_values(|r: CookerSourceFileRegistration| r.extension@).to_set()
    }

    /// Whether an asset type named `asset_type` is registered.
    pub fn has_asset_type(&self, asset_type: &str) -> (r: bool)
        ensures
            r == self.asset_types().contains(asset_type@),
    {
        let target = asset_type.to_string();
        let mut i: usize = 0;
        while i < self.asset_handlers.len()
            invariant
                i <= self.asset_handlers.len(),
                target@ == asset_type@,
                forall|j: int| 0 <= j < i ==> #[trigger] self.asset_handlers@[j].asset_type@ != asset_type@,
            decreases self.asset_handlers.len() - i,
        {
            if self.asset_handlers[i].asset_type == target {
                assert(self.asset_handlers@.map_values(|r: CookerAssetRegistation| r.asset_type@)[i as int] == asset_type@);
                return true;
            }
            i = i + 1;
        }
        assert(!self.asset_types().contains(asset_type@)) by {
            if self.asset_types().contains(asset_type@) {
                let s = self.asset_handlers@.map_values(|r: CookerAssetRegistation| r.asset_type@);
                let k = choose|k: int| 0 <= k < s.len() && s[k] == asset_type@;
                assert(self.asset_handlers@[k].asset_type@ == asset_type@);
            }
        }
        false
    }

    /// Whether a source-file kind with the extension `extension` is registered.
    pub fn has_source_file_type(&self, extension: &str) -> (r: bool)
        ensures
            r == self.source_file_types().contains(extension@),
    {
        let target = extension.to_string();
        let mut i: usize = 0;
        while i < self.source_file_handler.len()
            invariant
                i <= self.source_file_handler.len(),
                target@ == extension@,
                forall|j: int| 0 <= j < i ==> #[trigger] self.source_file_handler@[j].extension@ != extension@,
            decreases self.source_file_handler.len() - i,
        {
            if self.source_file_handler[i].extension == target {
                assert(self.source_file_handler@.map_values(|r: CookerSourceFileRegistration| r.extension@)[i as int] == extension@);
                return true;
            }
            i = i + 1;
        }
        assert(!self.source_file_types().contains(extension@)) by {
            if self.source_file_types().contains(extension@) {
                let s = self.source_file_handler@.map_values(|r: CookerSourceFileRegistration| r.extension@);
                let k = choose|k: int| 0 <= k < s.len() && s[k] == extension@;
                assert(self.source_file_handler@[k].extension@ == extension@);
            }
        }
        false
    }

    /// Registers the asset type `asset_type`; registering a name twice keeps one entry.
    pub fn register_asset_type_name(&mut self, asset_type: &str)
        ensures
            final(self).asset_types() == old(self).asset_types().insert(asset_type@),
            final(self).source_file_types() == old(self).source_file_types(),
    {
        if self.has_asset_type(asset_type) {
            assert(old(self).asset_types().insert(asset_type@) =~= old(self).asset_types());
            return;
        }
        let ghost before = self.asset_handlers@;
        let registration = CookerAssetRegistation { asset_type: asset_type.to_string() };
        self.asset_handlers.push(registration);
        assert(self.asset_handlers@.map_values(|r: CookerAssetRegistation| r.asset_type@) =~= before.map_values(
            |r: CookerAssetRegistation| r.asset_type@,
        ).push(asset_type@));
        proof {
            lemma_push_to_set(before.map_values(|r: CookerAssetRegistation| r.asset_type@), asset_type@);
        }
        assert(self.asset_types() =~= old(self).asset_types().insert(asset_type@));
    }

    /// Registers the kind of source file that `T` reads, under its extension;
    /// registering an extension twice keeps one entry.
    pub fn register_source_file_type<T: AssetSourceFileHandler>(&mut self)
        ensures
            final(self).source_file_types() == old(self).source_file_types().insert(T::EXTENSION@),
            final(self).asset_types() == old(self).asset_types(),
    {
        if self.has_source_file_type(T::EXTENSION) {
            assert(old(self).source_file_types().insert(T::EXTENSION@) =~= old(self).source_file_types());
            return;
        }
        let ghost before = self.source_file_handler@;
        let registration = CookerSourceFileRegistration { extension: T::EXTENSION.to_string() };
        self.source_file_handler.push(registration);
        assert(self.source_file_handler@.map_values(|r: CookerSourceFileRegistration| r.extension@) =~= before.map_values(
            |r: CookerSourceFileRegistration| r.extension@,
        ).push(T::EXTENSION@));
        proof {
            lemma_push_to_set(before.map_values(|r: CookerSourceFileRegistration| r.extension@), T::EXTENSION@);
        }
        assert(self.source_file_types() =~= old(self).source_file_types().insert(T::EXTENSION@));
    }

    /// How the asset `input` is cooked into the file at `output`: by the
    /// handler registered under its asset type, when there is one.
    pub fn cook(&self, input: &AssetDescription, output: &str) -> (r: Option<CookJob>)
        ensures
            (r is Some) == self.asset_types().contains(input.asset_type@),
            (r matches Some(j) ==> j.asset_type@ == input.asset_type@ && j.output@ == output@),
    {
        if self.has_asset_type(input.asset_type.as_str()) {
            Some(CookJob { asset_type: input.asset_type.clone(), output: output.to_string() })
        } else {
            None
        }
    }

    /// The extension `extension` found for the source file at `path`, when a
    /// handler for it is registered.
    pub fn handler_for(&self, path: &str, extension: Option<String>) -> (r: Result<String, CliError>)
        ensures
            extension is None ==> (r matches Err(CliError::AssetSourceFileExtensionInvalid(p)) && p@ == path@),
            (extension matches Some(e) ==> {
                if self.source_file_types().contains(e@) {
                    r matches Ok(x) && x@ == e@
                } else {
                    r matches Err(CliError::HandlerNotFound(x)) && x@ == e@
                }
            }),
    {
        match extension {
            None => Err(CliError::AssetSourceFileExtensionInvalid(path.to_string())),
            Some(extension) => {
                if self.has_source_file_type(extension.as_str()) {
                    Ok(extension)
                } else {
                    Err(CliError::HandlerNotFound(extension))
                }
            },
        }
    }

    /// The extension of the source file at `path`, when a handler for it is
    /// registered.
    pub fn handler_extension(&self, path: &str) -> (r: Result<String, CliError>)
        ensures
            path_extension(path@) is None ==> (r matches Err(CliError::AssetSourceFileExtensionInvalid(p)) && p@ == path@),
            (path_extension(path@) matches Some(e) ==> {
                if self.source_file_types().contains(e) {
                    r matches Ok(x) && x@ == e
                } else {
                    r matches Err(CliError::HandlerNotFound(x)) && x@ == e
                }
            }),
    {
        self.handler_for(path, extension_of(path))
    }
}

impl Default for Cooker {
    fn default() -> (r: Self)
        ensures
            r.asset_types() == Set::<Seq<char>>::empty(),
            r.source_file_types() == Set::<Seq<char>>::empty(),
    {
        let r = Cooker { asset_handlers: Vec::new(), source_file_handler: Vec::new() };
        assert(r.asset_types() =~= Set::<Seq<char>>::empty());
        assert(r.source_file_types() =~= Set::<Seq<char>>::empty());
        r
    }
}

/// Where the cooked form of the asset `name` is written: `name` under the
/// cook directory, with the cooked extension.
pub fn cooked_asset_path(name: &str) -> (r: String)
    ensures
        r@ == path_with_extension(path_join(COOK_DIR@, name@), COOKED_EXTENSION@),
{
    let joined = join(COOK_DIR, name);
    proof {
        reveal_strlit("asset");
        assert(has_no_separator(COOKED_EXTENSION@));
    }
    with_extension(joined.as_str(), COOKED_EXTENSION)
}

/// Cooks the asset named `name`: the first asset of that name is handed,
/// with the path from `cooked_asset_path`, to `Cooker::cook`. Fails when the
/// manifest has no such asset.
pub fn cook(name: &str, manifest: &Manifest, cooker: &Cooker) -> (r: Result<CookTask, ParsecError>)
    ensures
        r is Err <==> no_asset_named(manifest.assets@, name@),
        r matches Err(e) ==> e == ParsecError::NoneValue,
        (r matches Ok(t) ==> {
            &&& is_first_asset_named(manifest.assets@, name@, t.asset as int)
            &&& (t.source_file matches Some(f) ==> is_first_file_holding(manifest.files@, t.asset, f as int))
            &&& (t.source_file is None ==> forall|j: int|
                0 <= j < manifest.files@.len() ==> !(#[trigger] manifest.files@[j]).asset_ids@.contains(t.asset))
            &&& (t.job is Some) == cooker.asset_types().contains(manifest.assets@[t.asset as int].asset_type@)
            &&& (t.job matches Some(j) ==> {
                &&& j.asset_type@ == manifest.assets@[t.asset as int].asset_type@
                &&& j.output@ == path_with_extension(path_join(COOK_DIR@, name@), COOKED_EXTENSION@)
            })
        }),
{
    match manifest.find_asset(name) {
        None => Err(ParsecError::NoneValue),
        Some(i) => {
            let out_path = cooked_asset_path(name);
            let job = cooker.cook(&manifest.assets[i], out_path.as_str());
            let source_file = manifest.file_of_asset(i);
            Ok(CookTask { asset: i, source_file, job })
        },
    }
}

proof fn lemma_kept_from_len<T>(s: Seq<T>, ids: Set<usize>, from: int)
    requires
        0 <= from <= s.len(),
    ensures
        kept_from(s, ids, from).len() <= s.len() - from,
    decreases s.len() - from,
{
    if from < s.len() {
        lemma_kept_from_len(s, ids, from + 1);
    }
}

/// The manifest `after` is `before` with the assets of the file at `idx`
/// replaced: that file is removed as by `removes_source_file` and tracked
/// again at `path`, with the assets `extracted` reports, as by `adds_to`.
pub open spec fn rescans_source_file(
    before: Manifest,
    after: Manifest,
    idx: int,
    path: Seq<char>,
    extracted: Seq<InitialAssetDescription>,
) -> bool {
    adds_to(
        before.files@.update(idx, before.files@.last()).drop_last(),
        without_positions(before.assets@, before.files@[idx].asset_ids@),
        before.verison,
        after,
        path,
        extracted,
    )
}

/// Renews the assets of the tracked file whose path equals `path`: the
/// handler registered for the extension of the tracked file's path reads the
/// file again (`extract` is given the extension and that path), and the
/// file's old assets are replaced by what it reports. Fails when no tracked
/// file has the path, when its path has no extension, or when no handler is
/// registered for it. Answers `true` when the assets were replaced, and
/// `false`, with the manifest unchanged, when the file records positions
/// outside the asset list or the assets would not fit in a `Vec`.
pub fn rescan<F: Fn(&str, &str) -> Vec<InitialAssetDescription>>(
    manifest: &mut Manifest,
    cooker: &Cooker,
    path: &str,
    extract: F,
) -> (r: Result<bool, CliError>)
    requires
        forall|e: &str, p: &str| call_requires(extract, (e, p)),
    ensures
        (r is Err || r == Ok::<bool, CliError>(false)) ==> *final(manifest) == *old(manifest),
        no_file_with_path(old(manifest).files@, path@) ==> (r matches Err(CliError::AssetSourceFileNotFound(p)) && p@
            == path@),
        forall|i: int| #[trigger] is_first_file_with_path(old(manifest).files@, path@, i) ==> {
            let file_path = old(manifest).files@[i].filepath@;
            &&& path_extension(file_path) is None ==> (r matches Err(CliError::AssetSourceFileExtensionInvalid(p))
                && p@ == path@)
            &&& (path_extension(file_path) matches Some(e) ==> {
                if !cooker.source_file_types().contains(e) {
                    r matches Err(CliError::HandlerNotFound(x)) && x@ == e
                } else {
                    r matches Ok(renewed) && exists|es: &str, ps: &str, x: Vec<InitialAssetDescription>|
                        #![trigger call_ensures(extract, (es, ps), x)]
                        {
                            &&& es@ == e
                            &&& ps@ == file_path
                            &&& call_ensures(extract, (es, ps), x)
                            &&& renewed == ((forall|id: usize|
                                #[trigger] old(manifest).files@[i].asset_ids@.contains(id) ==> id < old(
                                    manifest,
                                ).assets@.len()) && old(manifest).assets@.len() + x@.len() <= usize::MAX)
                            &&& renewed ==> rescans_source_file(*old(manifest), *final(manifest), i, file_path, x@)
                        }
                }
            })
        },
{
    let idx = match manifest.find_file(path) {
        None => {
            return Err(CliError::AssetSourceFileNotFound(path.to_string()));
        },
        Some(i) => i,
    };
    let file_path = manifest.files[idx].filepath.clone();
    let extension = match extension_of(file_path.as_str()) {
        None => {
            return Err(CliError::AssetSourceFileExtensionInvalid(path.to_string()));
        },
        Some(e) => e,
    };
    if !cooker.has_source_file_type(extension.as_str()) {
        return Err(CliError::HandlerNotFound(extension));
    }
    let es: &str = extension.as_str();
    let ps: &str = file_path.as_str();
    let extracted = extract(es, ps);
    let ghost before = *manifest;
    let fits = manifest.assets.len() <= usize::MAX - extracted.len();
    if !manifest.asset_ids_in_range(idx) || !fits {
        assert(call_ensures(extract, (es, ps), extracted));
        return Ok(false);
    }
    manifest.remove_source_file_at(idx);
    proof {
        lemma_kept_from_len(before.assets@, before.files@[idx as int].asset_ids@, 0);
    }
    manifest.add_source_file(file_path.as_str(), &extracted);
    assert(call_ensures(extract, (es, ps), extracted));
    Ok(true)
}

/// Registering a name is idempotent, and registrations commute: the registry
/// depends only on which names were registered.
pub proof fn law_registration_is_a_set(registered: Set<Seq<char>>, a: Seq<char>, b: Seq<char>)
    ensures
        registered.insert(a).insert(a) == registered.insert(a),
        registered.insert(a).insert(b) == registered.insert(b).insert(a),
{
    assert(registered.insert(a).insert(a) =~= registered.insert(a));
    assert(registered.insert(a).insert(b) =~= registered.insert(b).insert(a));
}

} // verus!
