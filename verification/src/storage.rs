//! Save snapshots, byte-level differences between save versions, the UI
//! language, the persisted-state schema version and the per-save profile key.

use crate::strings::{
    ascii_lower_seq, eq_ignore_ascii_case_spec, str_eq_ignore_ascii_case, str_to_ascii_lowercase,
};
use sha2::Digest;
use vstd::prelude::*;

verus! {

/// Version of the persisted state written by this build.
pub const CURRENT_STATE_VERSION: u32 = 2;

/// The user interface language.
#[derive(Debug, Clone, Copy, PartialEq, Eq, Structural)]
pub enum Language {
    English,
    German,
    French,
    Spanish,
}

impl Default for Language {
    fn default() -> (r: Self)
        ensures
            r == Language::English,
    {
        Language::English
    }
}

impl Language {
    /// The language's name in that language.
    pub open spec fn spec_native_name(self) -> Seq<char> {
        match self {
            Language::English => "English"@,
            Language::German => "Deutsch"@,
            Language::French => "Français"@,
            Language::Spanish => "Español"@,
        }
    }

    pub fn native_name(self) -> (r: &'static str)
        ensures
            r@ == self.spec_native_name(),
    {
        match self {
            Language::English => "English",
            Language::German => "Deutsch",
            Language::French => "Français",
            Language::Spanish => "Español",
        }
    }
}

/// SHA-256 of a byte sequence (32 bytes), as the `sha2` crate computes it.
pub uninterp spec fn sha256_of(data: Seq<u8>) -> Seq<u8>;

/// `sha2::Sha256` over `bytes` (new, update, finalize): returns the digest,
/// which by the algorithm's definition is 32 bytes long.
#[verifier::external_body]
fn sha256_digest(bytes: &[u8]) -> (digest: Vec<u8>)
    ensures
        digest@ == sha256_of(bytes@),
        digest@.len() == 32,
{
    let mut hasher = sha2::Sha256::new();
    hasher.update(bytes);
    hasher.finalize().to_vec()
}

/// The lower-case hexadecimal digit for `n < 16`.
pub open spec fn hex_digit(n: int) -> char {
    if n < 10 {
        (48 + n) as char
    } else {
        (87 + n) as char
    }
}

/// Lower-case hexadecimal text of a byte sequence, high nibble first.
pub open spec fn hex_lower(bytes: Seq<u8>) -> Seq<char>
    decreases bytes.len(),
{
    if bytes.len() == 0 {
        Seq::empty()
    } else {
        seq![hex_digit(bytes[0] as int / 16), hex_digit(bytes[0] as int % 16)] + hex_lower(bytes.skip(1))
    }
}

/// `hex::encode`: two lower-case hexadecimal digits per byte, high nibble first.
#[verifier::external_body]
fn hex_encode(bytes: &[u8]) -> (text: String)
    ensures
        text@ == hex_lower(bytes@),
{
    hex::encode(bytes)
}

/// Name, length and SHA-256 of a save file's contents.
#[derive(Debug, Clone)]
pub struct SaveSnapshot {
    pub file_name: String,
    pub byte_length: u64,
    pub sha256: String,
}

impl View for SaveSnapshot {
    type V = (Seq<char>, u64, Seq<char>);

    open spec fn view(&self) -> (Seq<char>, u64, Seq<char>) {
        (self.file_name@, self.byte_length, self.sha256@)
    }
}

impl SaveSnapshot {
    pub fn from_bytes(file_name: String, bytes: &[u8]) -> (r: Self)
        ensures
            r.file_name@ == file_name@,
            r.byte_length == bytes@.len(),
            r.sha256@ == hex_lower(sha256_of(bytes@)),
    {
        let digest = sha256_digest(bytes);
        SaveSnapshot {
            file_name,
            byte_length: bytes.len() as u64,
            sha256: hex_encode(digest.as_slice()),
        }
    }

    /// Field-wise equality.
    pub fn same_as(&self, other: &SaveSnapshot) -> (r: bool)
        ensures
            r == (self@ == other@),
    {
        self.byte_length == other.byte_length && self.file_name == other.file_name && self.sha256
            == other.sha256
    }
}

/// How two versions of a save file differ byte by byte.
#[derive(Debug, Clone, Copy)]
pub struct DiffSummary {
    pub changed_bytes: u64,
    pub first_changed_offset: Option<u64>,
    pub changed_ranges: u64,
}

impl Default for DiffSummary {
    fn default() -> (r: Self)
        ensures
            r.changed_bytes == 0,
            r.first_changed_offset is None,
            r.changed_ranges == 0,
    {
        DiffSummary { changed_bytes: 0, first_changed_offset: None, changed_ranges: 0 }
    }
}

/// Position `i` differs: the bytes there differ, or only one file reaches it.
pub open spec fn byte_differs(a: Seq<u8>, b: Seq<u8>, i: int) -> bool {
    if i < a.len() && i < b.len() {
        a[i] != b[i]
    } else {
        (i < a.len()) != (i < b.len())
    }
}

/// The length of the longer file.
pub open spec fn diff_extent(a: Seq<u8>, b: Seq<u8>) -> int {
    if a.len() >= b.len() {
        a.len() as int
    } else {
        b.len() as int
    }
}

/// Number of differing positions below `n`.
pub open spec fn changed_count(a: Seq<u8>, b: Seq<u8>, n: int) -> int
    decreases n,
{
    if n <= 0 {
        0
    } else {
        changed_count(a, b, n - 1) + if byte_differs(a, b, n - 1) {
            1int
        } else {
            0int
        }
    }
}

/// A run of differing positions starts at `i`.
pub open spec fn range_starts_at(a: Seq<u8>, b: Seq<u8>, i: int) -> bool {
    byte_differs(a, b, i) && (i == 0 || !byte_differs(a, b, i - 1))
}

/// Number of maximal runs of differing positions that start below `n`.
pub open spec fn range_count(a: Seq<u8>, b: Seq<u8>, n: int) -> int
    decreases n,
{
    if n <= 0 {
        0
    } else {
        range_count(a, b, n - 1) + if range_starts_at(a, b, n - 1) {
            1int
        } else {
            0int
        }
    }
}

/// The lowest differing position below `n`.
pub open spec fn first_difference(a: Seq<u8>, b: Seq<u8>, n: int) -> Option<int>
    decreases n,
{
    if n <= 0 {
        None
    } else {
        match first_difference(a, b, n - 1) {
            Some(k) => Some(k),
            None => if byte_differs(a, b, n - 1) {
                Some(n - 1)
            } else {
                None
            },
        }
    }
}

pub open spec fn offset_view(o: Option<u64>) -> Option<int> {
    match o {
        Some(v) => Some(v as int),
        None => None,
    }
}

/// The difference summary of two files, as mathematical values.
pub open spec fn diff_spec(a: Seq<u8>, b: Seq<u8>) -> (int, Option<int>, int) {
    let n = diff_extent(a, b);
    (changed_count(a, b, n), first_difference(a, b, n), range_count(a, b, n))
}

impl View for DiffSummary {
    type V = (int, Option<int>, int);

    open spec fn view(&self) -> (int, Option<int>, int) {
        (self.changed_bytes as int, offset_view(self.first_changed_offset), self.changed_ranges as int)
    }
}

/// Counts stay below the number of positions looked at, and runs never
/// outnumber the differing positions.
pub proof fn lemma_diff_counts_bounded(a: Seq<u8>, b: Seq<u8>, n: int)
    ensures
        0 <= range_count(a, b, n) <= changed_count(a, b, n),
        n >= 0 ==> changed_count(a, b, n) <= n,
    decreases n,
{
    if n > 0 {
        lemma_diff_counts_bounded(a, b, n - 1);
    }
}

impl DiffSummary {
    /// Compares two files byte by byte.
    pub fn between(old: &[u8], new: &[u8]) -> (r: Self)
        ensures
            r@ == diff_spec(old@, new@),
    {
        let mut changed_bytes: u64 = 0;
        let mut changed_ranges: u64 = 0;
        let mut in_range = false;
        let max_len = if old.len() >= new.len() {
            old.len()
        } else {
            new.len()
        };
        let mut first_changed_offset: Option<u64> = None;
        let mut index: usize = 0;
        while index < max_len
            invariant
                index <= max_len,
                max_len == diff_extent(old@, new@),
                changed_bytes == changed_count(old@, new@, index as int),
                changed_ranges == range_count(old@, new@, index as int),
                offset_view(first_changed_offset) == first_difference(old@, new@, index as int),
                in_range == (index > 0 && byte_differs(old@, new@, index - 1)),
            decreases max_len - index,
        {
            proof {
                lemma_diff_counts_bounded(old@, new@, index as int);
            }
            let different = if index < old.len() && index < new.len() {
                old[index] != new[index]
            } else {
                (index < old.len()) != (index < new.len())
            };
            if different {
                changed_bytes = changed_bytes + 1;
                if first_changed_offset.is_none() {
                    first_changed_offset = Some(index as u64);
                }
                if !in_range {
                    changed_ranges = changed_ranges + 1;
                    in_range = true;
                }
            } else {
                in_range = false;
            }
            index = index + 1;
        }
        DiffSummary { changed_bytes, first_changed_offset, changed_ranges }
    }
}

proof fn lemma_diff_symmetric_upto(a: Seq<u8>, b: Seq<u8>, n: int)
    ensures
        changed_count(a, b, n) == changed_count(b, a, n),
        range_count(a, b, n) == range_count(b, a, n),
        first_difference(a, b, n) == first_difference(b, a, n),
    decreases n,
{
    if n > 0 {
        lemma_diff_symmetric_upto(a, b, n - 1);
        assert(byte_differs(a, b, n - 1) == byte_differs(b, a, n - 1));
        assert(byte_differs(a, b, n - 2) == byte_differs(b, a, n - 2));
    }
}

/// Comparing `b` with `a` reports the same as comparing `a` with `b`.
pub proof fn law_diff_is_symmetric(a: Seq<u8>, b: Seq<u8>)
    ensures
        diff_spec(a, b) == diff_spec(b, a),
{
    lemma_diff_symmetric_upto(a, b, diff_extent(a, b));
}

proof fn lemma_no_difference_with_itself(a: Seq<u8>, n: int)
    ensures
        changed_count(a, a, n) == 0,
        range_count(a, a, n) == 0,
        first_difference(a, a, n) is None,
    decreases n,
{
    if n > 0 {
        lemma_no_difference_with_itself(a, n - 1);
    }
}

/// A file compared with itself has no changed bytes, no changed ranges and
/// no first changed offset.
pub proof fn law_identical_files_have_empty_diff(a: Seq<u8>)
    ensures
        diff_spec(a, a) == (0int, None::<int>, 0int),
{
    lemma_no_difference_with_itself(a, diff_extent(a, a));
}

proof fn lemma_first_difference_iff_changes(a: Seq<u8>, b: Seq<u8>, n: int)
    ensures
        first_difference(a, b, n) is Some <==> changed_count(a, b, n) > 0,
        range_count(a, b, n) > 0 <==> changed_count(a, b, n) > 0,
        first_difference(a, b, n) matches Some(k) ==> 0 <= k < n && byte_differs(a, b, k) && (
        forall|j: int| 0 <= j < k ==> !byte_differs(a, b, j)),
        first_difference(a, b, n) is None ==> forall|j: int| 0 <= j < n ==> !byte_differs(a, b, j),
    decreases n,
{
    lemma_diff_counts_bounded(a, b, n);
    if n > 0 {
        lemma_first_difference_iff_changes(a, b, n - 1);
        lemma_diff_counts_bounded(a, b, n - 1);
    }
}

/// A difference summary is consistent: there is a first changed offset
/// exactly when some byte changed, it is the lowest position where the files
/// differ, there are changed ranges exactly when some byte changed, and never
/// more ranges than changed bytes nor more changed bytes than the longer file.
pub proof fn law_diff_summary_is_consistent(a: Seq<u8>, b: Seq<u8>)
    ensures
        ({
            let (changed, first, ranges) = diff_spec(a, b);
            &&& 0 <= ranges <= changed <= diff_extent(a, b)
            &&& (first is Some <==> changed > 0)
            &&& (ranges > 0 <==> changed > 0)
            &&& (first matches Some(k) ==> byte_differs(a, b, k) && 0 <= k < diff_extent(a, b)
                && forall|j: int| 0 <= j < k ==> !byte_differs(a, b, j))
        }),
{
    lemma_diff_counts_bounded(a, b, diff_extent(a, b));
    lemma_first_difference_iff_changes(a, b, diff_extent(a, b));
}

/// The outcome of refreshing the stored copy of a save.
#[derive(Debug)]
pub enum RefreshResult {
    Unchanged,
    Updated(DiffSummary),
}

/// Decides a refresh: unchanged when the new snapshot equals the current one,
/// otherwise updated with the difference between the stored and the new bytes.
pub fn refresh_outcome(
    current: &Option<SaveSnapshot>,
    new_snapshot: &SaveSnapshot,
    old_bytes: &[u8],
    new_bytes: &[u8],
) -> (r: RefreshResult)
    ensures
        match r {
            RefreshResult::Unchanged => current matches Some(c) && c@ == new_snapshot@,
            RefreshResult::Updated(d) => !(current matches Some(c) && c@ == new_snapshot@) && d@
                == diff_spec(old_bytes@, new_bytes@),
        },
{
    let unchanged = match current {
        Some(c) => c.same_as(new_snapshot),
        None => false,
    };
    if unchanged {
        RefreshResult::Unchanged
    } else {
        RefreshResult::Updated(DiffSummary::between(old_bytes, new_bytes))
    }
}

/// The difference recorded when the stored copy is re-synchronized at
/// startup: empty when there was no stored copy, else the byte difference.
pub fn startup_diff(old_bytes: &[u8], new_bytes: &[u8]) -> (r: DiffSummary)
    ensures
        old_bytes@.len() == 0 ==> r@ == (0int, None::<int>, 0int),
        old_bytes@.len() > 0 ==> r@ == diff_spec(old_bytes@, new_bytes@),
{
    if old_bytes.len() == 0 {
        DiffSummary::default()
    } else {
        DiffSummary::between(old_bytes, new_bytes)
    }
}

/// The key under which per-save notes are stored: the save path's text in
/// ASCII lower case.
pub fn allocation_profile_key(path_text: &str) -> (key: String)
    ensures
        key@ == ascii_lower_seq(path_text@),
{
    str_to_ascii_lowercase(path_text)
}

/// The key used while no save is selected.
pub fn no_save_profile_key() -> (key: String)
    ensures
        key@ == "__no_save__"@,
{
    String::from_str("__no_save__")
}

pub fn current_state_version() -> (v: u32)
    ensures
        v == CURRENT_STATE_VERSION,
{
    CURRENT_STATE_VERSION
}

/// The schema version a stored state declares: its `schema_version` field,
/// else its legacy `version` field (a field that is present but not an
/// unsigned integer counts as absent), else 1 (the unversioned format),
/// capped at `u32::MAX`.
pub open spec fn declared_state_version(
    schema_version: Option<Option<u64>>,
    legacy_version: Option<Option<u64>>,
) -> u32 {
    let field = match schema_version {
        Some(v) => v,
        None => match legacy_version {
            Some(v) => v,
            None => None,
        },
    };
    match field {
        Some(v) => if v > u32::MAX as u64 {
            u32::MAX
        } else {
            v as u32
        },
        None => 1,
    }
}

/// Reads the schema version of a stored state and whether it has to be
/// rewritten in the current schema. `schema_version` and `legacy_version`
/// describe the two fields: `None` when absent, `Some(None)` when present
/// but not an unsigned integer.
pub fn state_schema_migration(
    schema_version: Option<Option<u64>>,
    legacy_version: Option<Option<u64>>,
) -> (r: (u32, bool))
    ensures
        r.0 == declared_state_version(schema_version, legacy_version),
        r.1 == (r.0 != CURRENT_STATE_VERSION || schema_version is None),
{
    let field = match schema_version {
        Some(v) => v,
        None => match legacy_version {
            Some(v) => v,
            None => None,
        },
    };
    let version: u32 = match field {
        Some(v) => if v > u32::MAX as u64 {
            u32::MAX
        } else {
            v as u32
        },
        None => 1,
    };
    let had_schema_version = schema_version.is_some();
    (version, version != CURRENT_STATE_VERSION || !had_schema_version)
}

/// A state file written by this build (its `schema_version` is the current
/// one) declares the current version whatever legacy field it holds, so
/// reading it asks for no rewrite.
pub proof fn law_current_state_is_not_migrated(legacy_version: Option<Option<u64>>)
    ensures
        declared_state_version(Some(Some(CURRENT_STATE_VERSION as u64)), legacy_version)
            == CURRENT_STATE_VERSION,
{
}

pub fn default_show_node_names() -> (r: bool)
    ensures
        r == false,
{
    false
}

pub fn default_pause_map_when_unfocused() -> (r: bool)
    ensures
        r == true,
{
    true
}

pub fn default_show_annotations() -> (r: bool)
    ensures
        r == true,
{
    true
}

pub fn default_resource_filter() -> (r: String)
    ensures
        r@ == "Alle Ressourcen"@,
{
    String::from_str("Alle Ressourcen")
}

pub fn default_purity_filter() -> (r: String)
    ensures
        r@ == "Alle Reinheiten"@,
{
    String::from_str("Alle Reinheiten")
}

/// Whether a chosen file's extension marks a save: `sav` in any ASCII case.
pub fn save_extension_accepted(extension: Option<&str>) -> (r: bool)
    ensures
        r == (extension matches Some(e) && eq_ignore_ascii_case_spec(e@, "sav"@)),
{
    match extension {
        Some(e) => str_eq_ignore_ascii_case(e, "sav"),
        None => false,
    }
}

/// Whether the stored copy of the save has to be written again at
/// startup: the save changed since it was stored, or the copy is missing.
pub fn startup_copy_needed(
    current: &Option<SaveSnapshot>,
    new_snapshot: &SaveSnapshot,
    stored_copy_exists: bool,
) -> (r: bool)
    ensures
        r == (!(current matches Some(c) && c@ == new_snapshot@) || !stored_copy_exists),
{
    let unchanged = match current {
        Some(c) => c.same_as(new_snapshot),
        None => false,
    };
    !unchanged || !stored_copy_exists
}

pub open spec fn snapshot_view(o: Option<SaveSnapshot>) -> Option<(Seq<char>, u64, Seq<char>)> {
    match o {
        Some(s) => Some(s@),
        None => None,
    }
}

/// The save being tracked: where it comes from, the snapshots of its
/// current and previous version, and how the last refresh changed it.
#[derive(Debug)]
pub struct SaveState {
    pub source_path: Option<String>,
    pub current_snapshot: Option<SaveSnapshot>,
    pub previous_snapshot: Option<SaveSnapshot>,
    pub last_diff: Option<DiffSummary>,
}

impl SaveState {
    /// Nothing tracked.
    pub fn new() -> (r: SaveState)
        ensures
            r.source_path is None,
            r.current_snapshot is None,
            r.previous_snapshot is None,
            r.last_diff is None,
    {
        SaveState {
            source_path: None,
            current_snapshot: None,
            previous_snapshot: None,
            last_diff: None,
        }
    }

    /// A newly chosen save: its snapshot becomes the current one, the
    /// current one the previous one, and no difference is recorded.
    pub fn install(&mut self, source_path: String, snapshot: SaveSnapshot)
        ensures
            final(self).source_path matches Some(p) && p@ == source_path@,
            snapshot_view(final(self).current_snapshot) == Some(snapshot@),
            snapshot_view(final(self).previous_snapshot) == snapshot_view(
                old(self).current_snapshot,
            ),
            final(self).last_diff is None,
    {
        self.previous_snapshot = self.current_snapshot.take();
        self.current_snapshot = Some(snapshot);
        self.last_diff = None;
        self.source_path = Some(source_path);
    }

    /// A changed version of the tracked save was stored: its snapshot
    /// becomes the current one and the difference is recorded.
    pub fn record_update(&mut self, snapshot: SaveSnapshot, diff: DiffSummary)
        ensures
            final(self).source_path == old(self).source_path,
            snapshot_view(final(self).current_snapshot) == Some(snapshot@),
            snapshot_view(final(self).previous_snapshot) == snapshot_view(
                old(self).current_snapshot,
            ),
            final(self).last_diff == Some(diff),
    {
        self.previous_snapshot = self.current_snapshot.take();
        self.current_snapshot = Some(snapshot);
        self.last_diff = Some(diff);
    }

    /// Forgets the tracked save.
    pub fn clear(&mut self)
        ensures
            final(self).source_path is None,
            final(self).current_snapshot is None,
            final(self).previous_snapshot is None,
            final(self).last_diff is None,
    {
        self.source_path = None;
        self.current_snapshot = None;
        self.previous_snapshot = None;
        self.last_diff = None;
    }
}

} // verus!
