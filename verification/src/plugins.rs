//! Plugin ABI contracts and the plugin loader's decisions: file extension,
//! required symbols, ABI version and capability.

use vstd::prelude::*;

use crate::text::{
    contains_sub, debug_quoted, decimal, push_debug_quoted, push_decimal, push_signed_decimal,
    signed_decimal, str_contains, str_eq,
};

verus! {

pub const PLUGIN_ABI_VERSION_MAJOR: u16 = 1;
pub const PLUGIN_ABI_VERSION_MINOR: u16 = 0;
pub const PLUGIN_ABI_VERSION_PATCH: u16 = 0;

/// Major version in the high 16 bits, minor version in the low 16 bits.
pub const PLUGIN_ABI_VERSION: u32 = 0x0001_0000;

pub const SYMBOL_PLUGIN_DESCRIPTOR_V1: &'static str = "adapter_plugin_descriptor_v1";
pub const SYMBOL_PLUGIN_FN_TABLE_V1: &'static str = "adapter_plugin_function_table_v1";

pub const CAPABILITY_COMPUTE: u32 = 1;
pub const CAPABILITY_TRANSPORT: u32 = 2;
pub const CAPABILITY_CLOCK: u32 = 3;

pub const STATUS_OK: i32 = 0;
pub const STATUS_ERR_NOT_SUPPORTED: i32 = 10;
pub const STATUS_ERR_INVALID_INPUT: i32 = 11;
pub const STATUS_ERR_INTERNAL: i32 = 12;

pub const STATUS_ERR_ABI_MISMATCH: i32 = 20;
pub const STATUS_ERR_MISSING_SYMBOL: i32 = 21;

/// ABI boundary rule: export only C-compatible symbols and function tables;
/// Rust trait objects are not ABI-stable and must never cross a library boundary.
pub const ABI_BOUNDARY_RULE_NO_TRAIT_OBJECTS: &'static str = "no-rust-trait-object-export";

#[derive(Debug, Clone, Copy, PartialEq, Eq, Structural)]
pub struct AbiVersion {
    pub major: u16,
    pub minor: u16,
    pub patch: u16,
}

#[derive(Debug, Clone, Copy, PartialEq, Eq, Structural)]
pub struct PluginDescriptorV1 {
    pub abi: AbiVersion,
    pub capability_id: u32,
    pub flags: u32,
}

/// Capability a plugin provides.
#[derive(Debug, Clone, Copy, PartialEq, Eq, Structural)]
pub enum Capability {
    Compute,
    Transport,
    Clock,
}

/// The ABI identifier of each capability.
pub open spec fn spec_abi_id(c: Capability) -> u32 {
    match c {
        Capability::Compute => CAPABILITY_COMPUTE,
        Capability::Transport => CAPABILITY_TRANSPORT,
        Capability::Clock => CAPABILITY_CLOCK,
    }
}

impl Capability {
    pub fn as_abi_id(self) -> (r: u32)
        ensures
            r == spec_abi_id(self),
    {
        match self {
            Capability::Compute => CAPABILITY_COMPUTE,
            Capability::Transport => CAPABILITY_TRANSPORT,
            Capability::Clock => CAPABILITY_CLOCK,
        }
    }
}

/// How the loader opens a library.
#[derive(Debug, Clone, Copy, PartialEq, Eq, Structural)]
pub enum LoadStrategy {
    Simulated,
    Dynamic,
}

/// Why a plugin could not be loaded or invoked.
#[derive(Debug, Clone, PartialEq, Eq)]
pub enum LoadErrorKind {
    NotFound,
    UnsupportedExtension,
    MissingRequiredSymbol { symbol: &'static str },
    AbiMismatch { expected: AbiVersion, found: AbiVersion },
    CapabilityMismatch { expected: Capability, found_capability_id: u32 },
    LibraryOpenFailed { reason: String },
    InvokeFailed { code: i32 },
}

pub enum LoadErrorKindView {
    NotFound,
    UnsupportedExtension,
    MissingRequiredSymbol { symbol: Seq<char> },
    AbiMismatch { expected: AbiVersion, found: AbiVersion },
    CapabilityMismatch { expected: Capability, found_capability_id: u32 },
    LibraryOpenFailed { reason: Seq<char> },
    InvokeFailed { code: i32 },
}

impl View for LoadErrorKind {
    type V = LoadErrorKindView;

    open spec fn view(&self) -> LoadErrorKindView {
        match self {
            LoadErrorKind::NotFound => LoadErrorKindView::NotFound,
            LoadErrorKind::UnsupportedExtension => LoadErrorKindView::UnsupportedExtension,
            LoadErrorKind::MissingRequiredSymbol { symbol } => LoadErrorKindView::MissingRequiredSymbol { symbol: symbol@ },
            LoadErrorKind::AbiMismatch { expected, found } => LoadErrorKindView::AbiMismatch { expected: *expected, found: *found },
            LoadErrorKind::CapabilityMismatch { expected, found_capability_id } => LoadErrorKindView::CapabilityMismatch {
                expected: *expected,
                found_capability_id: *found_capability_id,
            },
            LoadErrorKind::LibraryOpenFailed { reason } => LoadErrorKindView::LibraryOpenFailed { reason: reason@ },
            LoadErrorKind::InvokeFailed { code } => LoadErrorKindView::InvokeFailed { code: *code },
        }
    }
}

/// The `Debug` name of a plugin capability.
pub open spec fn plugin_capability_name(c: Capability) -> Seq<char> {
    match c {
        Capability::Compute => "Compute"@,
        Capability::Transport => "Transport"@,
        Capability::Clock => "Clock"@,
    }
}

/// The `Debug` text of an ABI version.
pub open spec fn abi_version_debug(v: AbiVersion) -> Seq<char> {
    "AbiVersion { major: "@ + decimal(v.major as nat) + ", minor: "@ + decimal(v.minor as nat) + ", patch: "@
        + decimal(v.patch as nat) + " }"@
}

/// The `Debug` text of a load error kind.
pub open spec fn load_error_kind_debug(k: LoadErrorKindView) -> Seq<char> {
    match k {
        LoadErrorKindView::NotFound => "NotFound"@,
        LoadErrorKindView::UnsupportedExtension => "UnsupportedExtension"@,
        LoadErrorKindView::MissingRequiredSymbol { symbol } => "MissingRequiredSymbol { symbol: "@ + debug_quoted(symbol)
            + " }"@,
        LoadErrorKindView::AbiMismatch { expected, found } => "AbiMismatch { expected: "@ + abi_version_debug(expected)
            + ", found: "@ + abi_version_debug(found) + " }"@,
        LoadErrorKindView::CapabilityMismatch { expected, found_capability_id } => "CapabilityMismatch { expected: "@
            + plugin_capability_name(expected) + ", found_capability_id: "@ + decimal(found_capability_id as nat)
            + " }"@,
        LoadErrorKindView::LibraryOpenFailed { reason } => "LibraryOpenFailed { reason: "@ + debug_quoted(reason) + " }"@,
        LoadErrorKindView::InvokeFailed { code } => "InvokeFailed { code: "@ + signed_decimal(code as int) + " }"@,
    }
}

fn push_abi_version_debug(out: &mut String, v: AbiVersion)
    ensures
        final(out)@ == old(out)@ + abi_version_debug(v),
{
    out.append("AbiVersion { major: ");
    push_decimal(out, v.major as u64);
    out.append(", minor: ");
    push_decimal(out, v.minor as u64);
    out.append(", patch: ");
    push_decimal(out, v.patch as u64);
    out.append(" }");
    assert(final(out)@ =~= old(out)@ + abi_version_debug(v));
}

impl LoadErrorKind {
    /// Appends the error kind's `Debug` text to `out`.
    pub fn push_debug(&self, out: &mut String)
        ensures
            final(out)@ == old(out)@ + load_error_kind_debug(self@),
    {
        match self {
            LoadErrorKind::NotFound => out.append("NotFound"),
            LoadErrorKind::UnsupportedExtension => out.append("UnsupportedExtension"),
            LoadErrorKind::MissingRequiredSymbol { symbol } => {
                out.append("MissingRequiredSymbol { symbol: ");
                push_debug_quoted(out, symbol);
                out.append(" }");
                assert(final(out)@ =~= old(out)@ + load_error_kind_debug(self@));
            },
            LoadErrorKind::AbiMismatch { expected, found } => {
                out.append("AbiMismatch { expected: ");
                push_abi_version_debug(out, *expected);
                out.append(", found: ");
                push_abi_version_debug(out, *found);
                out.append(" }");
                assert(final(out)@ =~= old(out)@ + load_error_kind_debug(self@));
            },
            LoadErrorKind::CapabilityMismatch { expected, found_capability_id } => {
                out.append("CapabilityMismatch { expected: ");
                match expected {
                    Capability::Compute => out.append("Compute"),
                    Capability::Transport => out.append("Transport"),
                    Capability::Clock => out.append("Clock"),
                }
                out.append(", found_capability_id: ");
                push_decimal(out, *found_capability_id as u64);
                out.append(" }");
                assert(final(out)@ =~= old(out)@ + load_error_kind_debug(self@));
            },
            LoadErrorKind::LibraryOpenFailed { reason } => {
                out.append("LibraryOpenFailed { reason: ");
                push_debug_quoted(out, reason.as_str());
                out.append(" }");
                assert(final(out)@ =~= old(out)@ + load_error_kind_debug(self@));
            },
            LoadErrorKind::InvokeFailed { code } => {
                out.append("InvokeFailed { code: ");
                push_signed_decimal(out, *code as i64);
                out.append(" }");
                assert(final(out)@ =~= old(out)@ + load_error_kind_debug(self@));
            },
        }
    }
}

/// A failed load, with the path that was attempted.
#[derive(Debug, Clone, PartialEq, Eq)]
pub struct LoadError {
    pub plugin_path_attempted: String,
    pub reason: LoadErrorKind,
}

pub struct LoadErrorView {
    pub plugin_path_attempted: Seq<char>,
    pub reason: LoadErrorKindView,
}

impl View for LoadError {
    type V = LoadErrorView;

    open spec fn view(&self) -> LoadErrorView {
        LoadErrorView { plugin_path_attempted: self.plugin_path_attempted@, reason: self.reason@ }
    }
}

/// A plugin whose descriptor and function table were found and validated.
#[derive(Debug, Clone, PartialEq, Eq)]
pub struct LoadedPlugin {
    pub path: String,
    pub descriptor: PluginDescriptorV1,
}

pub struct LoadedPluginView {
    pub path: Seq<char>,
    pub descriptor: PluginDescriptorV1,
}

impl View for LoadedPlugin {
    type V = LoadedPluginView;

    open spec fn view(&self) -> LoadedPluginView {
        LoadedPluginView { path: self.path@, descriptor: self.descriptor }
    }
}

/// What the loader is asked to load.
#[derive(Debug, Clone, PartialEq, Eq)]
pub struct PluginLoadRequest {
    pub path: String,
    pub expected_capability: Capability,
    pub required: bool,
    pub strategy: LoadStrategy,
}

pub struct PluginLoadRequestView {
    pub path: Seq<char>,
    pub expected_capability: Capability,
    pub required: bool,
    pub strategy: LoadStrategy,
}

impl View for PluginLoadRequest {
    type V = PluginLoadRequestView;

    open spec fn view(&self) -> PluginLoadRequestView {
        PluginLoadRequestView {
            path: self.path@,
            expected_capability: self.expected_capability,
            required: self.required,
            strategy: self.strategy,
        }
    }
}

/// The outcome of a successful load request.
#[derive(Debug, Clone, PartialEq, Eq)]
pub enum LoadOutcome {
    Loaded(LoadedPlugin),
    OptionalMissing { attempted_path: String },
}

pub enum LoadOutcomeView {
    Loaded(LoadedPluginView),
    OptionalMissing { attempted_path: Seq<char> },
}

impl View for LoadOutcome {
    type V = LoadOutcomeView;

    open spec fn view(&self) -> LoadOutcomeView {
        match self {
            LoadOutcome::Loaded(p) => LoadOutcomeView::Loaded(p@),
            LoadOutcome::OptionalMissing { attempted_path } => LoadOutcomeView::OptionalMissing { attempted_path: attempted_path@ },
        }
    }
}

/// The result of a load request, taken by its view.
pub open spec fn load_result_view(r: Result<LoadOutcome, LoadError>) -> Result<LoadOutcomeView, LoadErrorView> {
    match r {
        Ok(o) => Ok(o@),
        Err(e) => Err(e@),
    }
}

/// An optional string, taken by its view.
pub open spec fn opt_string_view(o: Option<String>) -> Option<Seq<char>> {
    match o {
        Some(s) => Some(s@),
        None => None,
    }
}

/// The plugin files known to exist: the loader consults this set in place
/// of the file system, which the caller probed beforehand.
#[derive(Debug, Clone, PartialEq, Eq)]
pub struct PluginFiles {
    existing: Vec<String>,
}

impl View for PluginFiles {
    type V = Set<Seq<char>>;

    closed spec fn view(&self) -> Set<Seq<char>> {
        Set::new(|p: Seq<char>| exists|i: int| 0 <= i < self.existing@.len() && #[trigger] self.existing@[i]@ == p)
    }
}

impl PluginFiles {
    /// No file is known to exist.
    pub fn new() -> (r: Self)
        ensures
            r@ == Set::<Seq<char>>::empty(),
    {
        let r = PluginFiles { existing: Vec::new() };
        assert(r@ =~= Set::<Seq<char>>::empty());
        r
    }

    /// Records that a file exists.
    pub fn insert(&mut self, path: String)
        ensures
            final(self)@ == old(self)@.insert(path@),
    {
        let ghost p = path@;
        self.existing.push(path);
        proof {
            assert forall|q: Seq<char>| final(self)@.contains(q) <==> old(self)@.insert(p).contains(q) by {
                if q == p {
                    assert(self.existing@[self.existing@.len() - 1]@ == q);
                }
                if old(self)@.contains(q) {
                    let i = choose|i: int| 0 <= i < old(self).existing@.len() && #[trigger] old(self).existing@[i]@ == q;
                    assert(self.existing@[i]@ == q);
                }
                if final(self)@.contains(q) {
                    let i = choose|i: int| 0 <= i < self.existing@.len() && #[trigger] self.existing@[i]@ == q;
                    if i < old(self).existing@.len() {
                        assert(old(self).existing@[i]@ == q);
                    }
                }
            }
            assert(final(self)@ =~= old(self)@.insert(p));
        }
    }

    pub fn contains(&self, path: &str) -> (r: bool)
        ensures
            r == self@.contains(path@),
    {
        let mut i: usize = 0;
        while i < self.existing.len()
            invariant
                i <= self.existing@.len(),
                forall|k: int| 0 <= k < i ==> self.existing@[k]@ != path@,
            decreases self.existing@.len() - i,
        {
            if str_eq(self.existing[i].as_str(), path) {
                assert(self.existing@[i as int]@ == path@);
                assert(self@.contains(path@));
                return true;
            }
            i = i + 1;
        }
        proof {
            if self@.contains(path@) {
                let k = choose|k: int| 0 <= k < self.existing@.len() && #[trigger] self.existing@[k]@ == path@;
                assert(self.existing@[k]@ != path@);
            }
        }
        false
    }
}

/// The last component of a path, as `std::path::Path::file_name` gives it
/// under the path rules of the target the crate is built for.
pub uninterp spec fn path_file_name(path: Seq<char>) -> Option<Seq<char>>;

/// Position of the last '.' in `name`, or -1 when it holds none.
pub open spec fn last_dot(name: Seq<char>) -> int
    decreases name.len(),
{
    if name.len() == 0 {
        -1
    } else if name.last() == '.' {
        name.len() - 1
    } else {
        last_dot(name.drop_last())
    }
}

/// The extension of a file name as `std::path::Path::extension` documents
/// it: none for "..", none without a dot or when the only dot begins the
/// name, otherwise what follows the last dot.
pub open spec fn file_name_extension(name: Seq<char>) -> Option<Seq<char>> {
    let i = last_dot(name);
    if name == ".."@ || i <= 0 {
        None
    } else {
        Some(name.subrange(i + 1, name.len() as int))
    }
}

/// The extension of a path: that of its last component, if it has one,
/// under the path rules of the target the crate is built for.
pub open spec fn path_extension(path: Seq<char>) -> Option<Seq<char>> {
    match path_file_name(path) {
        Some(name) => file_name_extension(name),
        None => None,
    }
}

/// Trusted: calls `std::path::Path::extension` on the path; the contract
/// claims that the answer is the extension of the path's file name, as the
/// documentation of `Path::extension` describes it (`path_extension`).
#[verifier::external_body]
pub fn extension_of(path: &str) -> (r: Option<String>)
    ensures
        opt_string_view(r) == path_extension(path@),
{
    match std::path::Path::new(path).extension() {
        Some(e) => Some(e.to_string_lossy().into_owned()),
        None => None,
    }
}

/// Trusted: calls `std::path::Path::file_name` on the path; the contract
/// claims only that the answer is `path_file_name` of the path.
#[verifier::external_body]
pub fn file_name_of(path: &str) -> (r: Option<String>)
    ensures
        opt_string_view(r) == path_file_name(path@),
{
    match std::path::Path::new(path).file_name() {
        Some(n) => Some(n.to_string_lossy().into_owned()),
        None => None,
    }
}

/// The `Debug` text of a path, as `std::path::Path` gives it: quoted, with
/// each character escaped by the target's rules for `OsStr` (on Unix a
/// single quote is escaped, unlike in the `Debug` text of a `str`).
pub uninterp spec fn debug_path(path: Seq<char>) -> Seq<char>;

/// Appends the `Debug` text of a path to `out`.
/// Trusted: calls `std`'s `Debug` for `std::path::Path` through `format!`;
/// the contract claims only that the text appended is `debug_path` of the path.
#[verifier::external_body]
pub fn push_debug_path(out: &mut String, path: &str)
    ensures
        final(out)@ == old(out)@ + debug_path(path@),
{
    out.push_str(&format!("{:?}", std::path::Path::new(path)));
}

/// Trusted: reads `std::path::MAIN_SEPARATOR`, which the documentation gives
/// as '\\' on Windows and '/' elsewhere.
#[verifier::external_body]
fn main_separator() -> (r: char)
    ensures
        r == '/' || r == '\\',
{
    std::path::MAIN_SEPARATOR
}

/// Extension of dynamic libraries on a platform with the given path
/// separator: "dll" where it is '\\' (Windows), "so" elsewhere.
pub fn library_extension_for(separator: char) -> (r: &'static str)
    ensures
        r@ == (if separator == '\\' { "dll"@ } else { "so"@ }),
{
    if separator == '\\' {
        "dll"
    } else {
        "so"
    }
}

/// Extension of dynamic libraries on this platform: "dll" where the path
/// separator is '\\' (Windows), "so" elsewhere.
pub fn platform_library_extension() -> (r: &'static str)
    ensures
        r@ == "so"@ || r@ == "dll"@,
{
    library_extension_for(main_separator())
}

/// What the simulated backend finds in a library, from its file name alone:
/// the descriptor (absent if the name contains "missing-desc"; ABI major 2 if
/// it contains "abi2"; capability transport, clock or compute by the name) and
/// whether the function table is present (absent if it contains "missing-table").
pub open spec fn spec_simulated_open(name: Seq<char>) -> (Option<PluginDescriptorV1>, bool) {
    let capability = if contains_sub(name, "transport"@) {
        CAPABILITY_TRANSPORT
    } else if contains_sub(name, "clock"@) {
        CAPABILITY_CLOCK
    } else {
        CAPABILITY_COMPUTE
    };
    let descriptor = if contains_sub(name, "missing-desc"@) {
        None
    } else {
        Some(
            PluginDescriptorV1 {
                abi: AbiVersion {
                    major: if contains_sub(name, "abi2"@) { 2 } else { PLUGIN_ABI_VERSION_MAJOR },
                    minor: PLUGIN_ABI_VERSION_MINOR,
                    patch: 0,
                },
                capability_id: capability,
                flags: 0,
            },
        )
    };
    (descriptor, !contains_sub(name, "missing-table"@))
}

fn simulated_open(path: &str) -> (r: (Option<PluginDescriptorV1>, bool))
    ensures
        r == spec_simulated_open(
            match path_file_name(path@) {
                Some(n) => n,
                None => Seq::empty(),
            },
        ),
{
    let name = match file_name_of(path) {
        Some(n) => n,
        None => String::new(),
    };
    let name = name.as_str();
    let capability = if str_contains(name, "transport") {
        CAPABILITY_TRANSPORT
    } else if str_contains(name, "clock") {
        CAPABILITY_CLOCK
    } else {
        CAPABILITY_COMPUTE
    };
    let descriptor = if str_contains(name, "missing-desc") {
        None
    } else {
        Some(
            PluginDescriptorV1 {
                abi: AbiVersion {
                    major: if str_contains(name, "abi2") { 2 } else { PLUGIN_ABI_VERSION_MAJOR },
                    minor: PLUGIN_ABI_VERSION_MINOR,
                    patch: 0,
                },
                capability_id: capability,
                flags: 0,
            },
        )
    };
    (descriptor, !str_contains(name, "missing-table"))
}

/// The ABI a plugin must declare: same major and minor version as the host.
pub open spec fn spec_validate_abi(found: AbiVersion) -> Result<(), LoadErrorKindView> {
    if found.major == PLUGIN_ABI_VERSION_MAJOR && found.minor == PLUGIN_ABI_VERSION_MINOR {
        Ok(())
    } else {
        Err(LoadErrorKindView::AbiMismatch {
            expected: AbiVersion { major: PLUGIN_ABI_VERSION_MAJOR, minor: PLUGIN_ABI_VERSION_MINOR, patch: 0 },
            found,
        })
    }
}

/// The capability a plugin declares must be the one expected.
pub open spec fn spec_validate_capability(expected: Capability, found_id: u32) -> Result<(), LoadErrorKindView> {
    if spec_abi_id(expected) == found_id {
        Ok(())
    } else {
        Err(LoadErrorKindView::CapabilityMismatch { expected, found_capability_id: found_id })
    }
}

fn validate_abi(found: AbiVersion) -> (r: Result<(), LoadErrorKind>)
    ensures
        match r {
            Ok(()) => spec_validate_abi(found) is Ok,
            Err(k) => spec_validate_abi(found) == Err::<(), LoadErrorKindView>(k@),
        },
{
    let expected = AbiVersion { major: PLUGIN_ABI_VERSION_MAJOR, minor: PLUGIN_ABI_VERSION_MINOR, patch: 0 };
    if found.major == expected.major && found.minor == expected.minor {
        return Ok(());
    }
    Err(LoadErrorKind::AbiMismatch { expected, found })
}

fn validate_capability(expected: Capability, found_id: u32) -> (r: Result<(), LoadErrorKind>)
    ensures
        match r {
            Ok(()) => spec_validate_capability(expected, found_id) is Ok,
            Err(k) => spec_validate_capability(expected, found_id) == Err::<(), LoadErrorKindView>(k@),
        },
{
    if expected.as_abi_id() == found_id {
        return Ok(());
    }
    Err(LoadErrorKind::CapabilityMismatch { expected, found_capability_id: found_id })
}

/// The reason the dynamic backend gives: it is not available in this build.
pub open spec fn dynamic_open_failure() -> Seq<char> {
    "dynamic loading backend unavailable in this build"@
}

/// The loader's decision on a request, given whether the file exists and the
/// platform's library extension.
pub open spec fn spec_load(req: PluginLoadRequestView, exists: bool, ext: Seq<char>) -> Result<LoadOutcomeView, LoadErrorView> {
    let fail = |k: LoadErrorKindView| Err::<LoadOutcomeView, LoadErrorView>(LoadErrorView { plugin_path_attempted: req.path, reason: k });
    if !exists {
        if req.required {
            fail(LoadErrorKindView::NotFound)
        } else {
            Ok(LoadOutcomeView::OptionalMissing { attempted_path: req.path })
        }
    } else if path_extension(req.path) != Some(ext) {
        fail(LoadErrorKindView::UnsupportedExtension)
    } else if req.strategy == LoadStrategy::Dynamic {
        fail(LoadErrorKindView::LibraryOpenFailed { reason: dynamic_open_failure() })
    } else {
        let name = match path_file_name(req.path) {
            Some(n) => n,
            None => Seq::empty(),
        };
        let (descriptor, has_table) = spec_simulated_open(name);
        if descriptor is None {
            fail(LoadErrorKindView::MissingRequiredSymbol { symbol: SYMBOL_PLUGIN_DESCRIPTOR_V1@ })
        } else if !has_table {
            fail(LoadErrorKindView::MissingRequiredSymbol { symbol: SYMBOL_PLUGIN_FN_TABLE_V1@ })
        } else if spec_validate_abi(descriptor->0.abi) is Err {
            fail(spec_validate_abi(descriptor->0.abi)->Err_0)
        } else if spec_validate_capability(req.expected_capability, descriptor->0.capability_id) is Err {
            fail(spec_validate_capability(req.expected_capability, descriptor->0.capability_id)->Err_0)
        } else {
            Ok(LoadOutcomeView::Loaded(LoadedPluginView { path: req.path, descriptor: descriptor->0 }))
        }
    }
}

/// The loader's decision on a request once the existence of the file and
/// the platform's library extension are known.
pub fn decide_load(request: &PluginLoadRequest, exists: bool, extension: &str) -> (r: Result<LoadOutcome, LoadError>)
    ensures
        load_result_view(r) == spec_load(request@, exists, extension@),
{
    if !exists {
        if request.required {
            return Err(LoadError { plugin_path_attempted: request.path.clone(), reason: LoadErrorKind::NotFound });
        }
        return Ok(LoadOutcome::OptionalMissing { attempted_path: request.path.clone() });
    }
    let matches_extension = match extension_of(request.path.as_str()) {
        Some(e) => str_eq(e.as_str(), extension),
        None => false,
    };
    if !matches_extension {
        return Err(LoadError { plugin_path_attempted: request.path.clone(), reason: LoadErrorKind::UnsupportedExtension });
    }
    let (descriptor, has_table) = match request.strategy {
        LoadStrategy::Simulated => simulated_open(request.path.as_str()),
        LoadStrategy::Dynamic => {
            let reason = "dynamic loading backend unavailable in this build".to_string();
            return Err(LoadError { plugin_path_attempted: request.path.clone(), reason: LoadErrorKind::LibraryOpenFailed { reason } });
        },
    };
    let descriptor = match descriptor {
        Some(d) => d,
        None => {
            return Err(LoadError {
                plugin_path_attempted: request.path.clone(),
                reason: LoadErrorKind::MissingRequiredSymbol { symbol: SYMBOL_PLUGIN_DESCRIPTOR_V1 },
            });
        },
    };
    if !has_table {
        return Err(LoadError {
            plugin_path_attempted: request.path.clone(),
            reason: LoadErrorKind::MissingRequiredSymbol { symbol: SYMBOL_PLUGIN_FN_TABLE_V1 },
        });
    }
    if let Err(k) = validate_abi(descriptor.abi) {
        return Err(LoadError { plugin_path_attempted: request.path.clone(), reason: k });
    }
    if let Err(k) = validate_capability(request.expected_capability, descriptor.capability_id) {
        return Err(LoadError { plugin_path_attempted: request.path.clone(), reason: k });
    }
    Ok(LoadOutcome::Loaded(LoadedPlugin { path: request.path.clone(), descriptor }))
}

/// Loads a plugin: the file must be among the known files (else `NotFound`
/// when required, `OptionalMissing` otherwise), carry the platform's library
/// extension, open, export both symbols and declare the host ABI and the
/// expected capability.
pub fn load_plugin(request: &PluginLoadRequest, files: &PluginFiles) -> (r: Result<LoadOutcome, LoadError>)
    ensures
        load_result_view(r) == spec_load(request@, files@.contains(request@.path), "so"@)
            || load_result_view(r) == spec_load(request@, files@.contains(request@.path), "dll"@),
{
    let exists = files.contains(request.path.as_str());
    decide_load(request, exists, platform_library_extension())
}

/// The result of calling a plugin's entry point with a status code.
pub open spec fn spec_invoke_outcome(code: i32) -> Result<(), LoadErrorKindView> {
    if code == STATUS_OK {
        Ok(())
    } else {
        Err(LoadErrorKindView::InvokeFailed { code })
    }
}

/// Maps the status code returned by a plugin's entry point: success for
/// `STATUS_OK`, `InvokeFailed` with the code otherwise.
pub fn invoke_outcome(code: i32) -> (r: Result<(), LoadErrorKind>)
    ensures
        match r {
            Ok(()) => spec_invoke_outcome(code) is Ok,
            Err(k) => spec_invoke_outcome(code) == Err::<(), LoadErrorKindView>(k@),
        },
{
    if code == STATUS_OK {
        Ok(())
    } else {
        Err(LoadErrorKind::InvokeFailed { code })
    }
}

} // verus!

verus! {

/// A plugin that is not there never fails an optional load and always fails
/// a required one with `NotFound`, whatever the platform or strategy.
pub proof fn lemma_missing_plugin(req: PluginLoadRequestView, ext: Seq<char>)
    ensures
        !req.required ==> spec_load(req, false, ext) == Ok::<LoadOutcomeView, LoadErrorView>(
            LoadOutcomeView::OptionalMissing { attempted_path: req.path },
        ),
        req.required ==> spec_load(req, false, ext) == Err::<LoadOutcomeView, LoadErrorView>(
            LoadErrorView { plugin_path_attempted: req.path, reason: LoadErrorKindView::NotFound },
        ),
{
}

/// A loaded plugin declares the host's ABI major and minor version and the
/// capability that was asked for.
pub proof fn lemma_loaded_plugin_matches_request(req: PluginLoadRequestView, exists: bool, ext: Seq<char>)
    requires
        spec_load(req, exists, ext) matches Ok(LoadOutcomeView::Loaded(_)),
    ensures
        ({
            let p = spec_load(req, exists, ext)->Ok_0->Loaded_0;
            &&& p.descriptor.abi.major == PLUGIN_ABI_VERSION_MAJOR
            &&& p.descriptor.abi.minor == PLUGIN_ABI_VERSION_MINOR
            &&& p.descriptor.capability_id == spec_abi_id(req.expected_capability)
            &&& p.path == req.path
            &&& exists && req.strategy == LoadStrategy::Simulated
        }),
{
}

/// The simulated backend reads the capability from the file name: a plugin
/// file that exists with the platform's extension, whose name holds none of
/// "missing-desc", "missing-table" or "abi2", loads with ABI 1.0.0 when it
/// is requested for the capability its name names ("transport" for
/// transport; otherwise "clock" for clock; otherwise compute), and its
/// descriptor carries that capability's id (2, 3 or 1).
pub proof fn lemma_simulated_plugin_loads(req: PluginLoadRequestView, ext: Seq<char>, name: Seq<char>)
    requires
        req.strategy == LoadStrategy::Simulated,
        path_extension(req.path) == Some(ext),
        path_file_name(req.path) == Some(name),
        !contains_sub(name, "missing-desc"@),
        !contains_sub(name, "missing-table"@),
        !contains_sub(name, "abi2"@),
        contains_sub(name, "transport"@) ==> req.expected_capability == Capability::Transport,
        !contains_sub(name, "transport"@) && contains_sub(name, "clock"@) ==> req.expected_capability == Capability::Clock,
        !contains_sub(name, "transport"@) && !contains_sub(name, "clock"@) ==> req.expected_capability == Capability::Compute,
    ensures
        spec_load(req, true, ext) == Ok::<LoadOutcomeView, LoadErrorView>(
            LoadOutcomeView::Loaded(
                LoadedPluginView {
                    path: req.path,
                    descriptor: PluginDescriptorV1 {
                        abi: AbiVersion { major: 1, minor: 0, patch: 0 },
                        capability_id: match req.expected_capability {
                            Capability::Compute => 1u32,
                            Capability::Transport => 2u32,
                            Capability::Clock => 3u32,
                        },
                        flags: 0,
                    },
                },
            ),
        ),
{
}

/// A simulated plugin named for one capability and requested for another
/// is refused with a capability mismatch that reports the named capability.
pub proof fn lemma_simulated_plugin_wrong_capability(req: PluginLoadRequestView, ext: Seq<char>, name: Seq<char>)
    requires
        req.strategy == LoadStrategy::Simulated,
        path_extension(req.path) == Some(ext),
        path_file_name(req.path) == Some(name),
        !contains_sub(name, "missing-desc"@),
        !contains_sub(name, "missing-table"@),
        !contains_sub(name, "abi2"@),
        !contains_sub(name, "transport"@),
        contains_sub(name, "clock"@),
        req.expected_capability != Capability::Clock,
    ensures
        spec_load(req, true, ext) == Err::<LoadOutcomeView, LoadErrorView>(
            LoadErrorView {
                plugin_path_attempted: req.path,
                reason: LoadErrorKindView::CapabilityMismatch { expected: req.expected_capability, found_capability_id: 3 },
            },
        ),
{
}

} // verus!
