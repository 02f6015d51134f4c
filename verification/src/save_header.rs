//! The uncompressed header at the top of a `.sav` file.

use crate::reader::{
    lemma_confirm_u32_extend, lemma_read_bool_u32_extend, lemma_read_fstring_extend,
    lemma_read_u32_extend, lemma_read_u64_extend, lemma_read_u8_extend,
    spec_confirm_u32, spec_read_bool_u32, spec_read_fstring, spec_read_u32, spec_read_u64,
    spec_read_u8, le_u16_units, le_u32_value, Cursor, HeaderError,
};
use vstd::prelude::*;

verus! {

/// The header fields of a save file.
#[derive(Debug, Clone)]
pub struct SaveFileInfo {
    pub save_header_type: u32,
    pub save_version: u32,
    pub build_version: u32,
    pub save_name: String,
    pub map_name: String,
    pub map_options: String,
    pub session_name: String,
    pub play_duration_in_seconds: u32,
    pub save_date_time_in_ticks: u64,
    pub session_visibility: u8,
    pub editor_object_version: u32,
    pub mod_metadata: String,
    pub is_modded_save: bool,
    pub save_identifier: String,
    pub save_data_hash: [u64; 2],
    pub is_creative_mode_enabled: bool,
}

/// The header fields as mathematical values.
pub ghost struct SaveFileInfoModel {
    pub save_header_type: u32,
    pub save_version: u32,
    pub build_version: u32,
    pub save_name: Seq<char>,
    pub map_name: Seq<char>,
    pub map_options: Seq<char>,
    pub session_name: Seq<char>,
    pub play_duration_in_seconds: u32,
    pub save_date_time_in_ticks: u64,
    pub session_visibility: u8,
    pub editor_object_version: u32,
    pub mod_metadata: Seq<char>,
    pub is_modded_save: bool,
    pub save_identifier: Seq<char>,
    pub save_data_hash: (u64, u64),
    pub is_creative_mode_enabled: bool,
}

impl View for SaveFileInfo {
    type V = SaveFileInfoModel;

    open spec fn view(&self) -> SaveFileInfoModel {
        SaveFileInfoModel {
            save_header_type: self.save_header_type,
            save_version: self.save_version,
            build_version: self.build_version,
            save_name: self.save_name@,
            map_name: self.map_name@,
            map_options: self.map_options@,
            session_name: self.session_name@,
            play_duration_in_seconds: self.play_duration_in_seconds,
            save_date_time_in_ticks: self.save_date_time_in_ticks,
            session_visibility: self.session_visibility,
            editor_object_version: self.editor_object_version,
            mod_metadata: self.mod_metadata@,
            is_modded_save: self.is_modded_save,
            save_identifier: self.save_identifier@,
            save_data_hash: (self.save_data_hash[0], self.save_data_hash[1]),
            is_creative_mode_enabled: self.is_creative_mode_enabled,
        }
    }
}

/// Ticks of the save timestamp per second.
pub const TICKS_IN_SECOND: u64 = 10_000_000;

/// Seconds from 0001-01-01 to 1970-01-01.
pub const EPOCH_1_TO_1970: u64 = 62_135_596_800;

/// First save version with the 1.0 body layout.
pub const FIRST_1_0_SAVE_VERSION: u32 = 46;

/// Header layouts this parser reads: 13 (Update 8, no save name) and 14 (1.0 and later).
pub open spec fn supported_header_type(t: u32) -> bool {
    t == 13 || t == 14
}

/// Save versions this parser accepts.
pub open spec fn supported_save_version(v: u32) -> bool {
    v == 42 || v == 52 || v == 53 || v == 58 || v == 59 || v == 60
}

/// The first three fields: header type, save version, build version.
pub open spec fn spec_versions(d: Seq<u8>) -> Result<(u32, u32, u32, int), HeaderError> {
    match spec_read_u32(d, 0) {
        Err(e) => Err(e),
        Ok((ht, p1)) => if !supported_header_type(ht) {
            Err(HeaderError::UnsupportedHeaderType(ht))
        } else {
            match spec_read_u32(d, p1) {
                Err(e) => Err(e),
                Ok((sv, p2)) => if !supported_save_version(sv) {
                    Err(HeaderError::UnsupportedSaveVersion(sv))
                } else {
                    match spec_read_u32(d, p2) {
                        Err(e) => Err(e),
                        Ok((bv, p3)) => Ok((ht, sv, bv, p3)),
                    }
                },
            }
        },
    }
}

/// Save name (header type 14 on; empty before), map name, map options, session name.
pub open spec fn spec_names(d: Seq<u8>, ht: u32, p: int) -> Result<
    (Seq<char>, Seq<char>, Seq<char>, Seq<char>, int),
    HeaderError,
> {
    let save_name: Result<(Seq<char>, int), HeaderError> = if ht >= 14 {
        spec_read_fstring(d, p)
    } else {
        Ok((Seq::empty(), p))
    };
    match save_name {
        Err(e) => Err(e),
        Ok((sn, p1)) => match spec_read_fstring(d, p1) {
            Err(e) => Err(e),
            Ok((mn, p2)) => match spec_read_fstring(d, p2) {
                Err(e) => Err(e),
                Ok((mo, p3)) => match spec_read_fstring(d, p3) {
                    Err(e) => Err(e),
                    Ok((ses, p4)) => Ok((sn, mn, mo, ses, p4)),
                },
            },
        },
    }
}

/// Play duration, timestamp ticks and session visibility.
pub open spec fn spec_session(d: Seq<u8>, p: int) -> Result<(u32, u64, u8, int), HeaderError> {
    match spec_read_u32(d, p) {
        Err(e) => Err(e),
        Ok((pd, p1)) => match spec_read_u64(d, p1) {
            Err(e) => Err(e),
            Ok((ticks, p2)) => match spec_read_u8(d, p2) {
                Err(e) => Err(e),
                Ok((vis, p3)) => Ok((pd, ticks, vis, p3)),
            },
        },
    }
}

/// Editor object version, mod metadata, the modded flag and the save identifier.
pub open spec fn spec_mod_info(d: Seq<u8>, p: int) -> Result<
    (u32, Seq<char>, bool, Seq<char>, int),
    HeaderError,
> {
    match spec_read_u32(d, p) {
        Err(e) => Err(e),
        Ok((eov, p1)) => match spec_read_fstring(d, p1) {
            Err(e) => Err(e),
            Ok((meta, p2)) => match spec_read_bool_u32(d, p2) {
                Err(e) => Err(e),
                Ok((modded, p3)) => match spec_read_fstring(d, p3) {
                    Err(e) => Err(e),
                    Ok((ident, p4)) => Ok((eov, meta, modded, ident, p4)),
                },
            },
        },
    }
}

/// Two fields that must be 1 (the partitioned-world marker), the data hash and the creative flag.
pub open spec fn spec_tail(d: Seq<u8>, p: int) -> Result<(u64, u64, bool, int), HeaderError> {
    match spec_confirm_u32(d, p, 1) {
        Err(e) => Err(e),
        Ok(p1) => match spec_confirm_u32(d, p1, 1) {
            Err(e) => Err(e),
            Ok(p2) => match spec_read_u64(d, p2) {
                Err(e) => Err(e),
                Ok((h0, p3)) => match spec_read_u64(d, p3) {
                    Err(e) => Err(e),
                    Ok((h1, p4)) => match spec_read_bool_u32(d, p4) {
                        Err(e) => Err(e),
                        Ok((creative, p5)) => Ok((h0, h1, creative, p5)),
                    },
                },
            },
        },
    }
}

/// The header that the bytes `d` start with, and the offset where the
/// compressed body begins; or the first error met while reading it.
pub open spec fn spec_parse_save_file_info(d: Seq<u8>) -> Result<
    (SaveFileInfoModel, int),
    HeaderError,
> {
    match spec_versions(d) {
        Err(e) => Err(e),
        Ok((ht, sv, bv, p1)) => match spec_names(d, ht, p1) {
            Err(e) => Err(e),
            Ok((sn, mn, mo, ses, p2)) => match spec_session(d, p2) {
                Err(e) => Err(e),
                Ok((pd, ticks, vis, p3)) => match spec_mod_info(d, p3) {
                    Err(e) => Err(e),
                    Ok((eov, meta, modded, ident, p4)) => match spec_tail(d, p4) {
                        Err(e) => Err(e),
                        Ok((h0, h1, creative, p5)) => Ok(
                            (
                                SaveFileInfoModel {
                                    save_header_type: ht,
                                    save_version: sv,
                                    build_version: bv,
                                    save_name: sn,
                                    map_name: mn,
                                    map_options: mo,
                                    session_name: ses,
                                    play_duration_in_seconds: pd,
                                    save_date_time_in_ticks: ticks,
                                    session_visibility: vis,
                                    editor_object_version: eov,
                                    mod_metadata: meta,
                                    is_modded_save: modded,
                                    save_identifier: ident,
                                    save_data_hash: (h0, h1),
                                    is_creative_mode_enabled: creative,
                                },
                                p5,
                            ),
                        ),
                    },
                },
            },
        },
    }
}

/// The parse result as mathematical values.
pub open spec fn header_result_view(r: Result<(SaveFileInfo, usize), HeaderError>) -> Result<
    (SaveFileInfoModel, int),
    HeaderError,
> {
    match r {
        Ok((info, off)) => Ok((info@, off as int)),
        Err(e) => Err(e),
    }
}

proof fn lemma_versions_extend(d: Seq<u8>, e: Seq<u8>)
    requires
        spec_versions(d) is Ok,
    ensures
        spec_versions(d + e) == spec_versions(d),
        spec_versions(d)->Ok_0.3 <= d.len(),
{
    lemma_read_u32_extend(d, e, 0);
    let p1 = spec_read_u32(d, 0)->Ok_0.1;
    lemma_read_u32_extend(d, e, p1);
    let p2 = spec_read_u32(d, p1)->Ok_0.1;
    lemma_read_u32_extend(d, e, p2);
}

proof fn lemma_names_extend(d: Seq<u8>, e: Seq<u8>, ht: u32, p: int)
    requires
        spec_names(d, ht, p) is Ok,
    ensures
        spec_names(d + e, ht, p) == spec_names(d, ht, p),
        spec_names(d, ht, p)->Ok_0.4 <= d.len(),
{
    let p1 = if ht >= 14 {
        lemma_read_fstring_extend(d, e, p);
        spec_read_fstring(d, p)->Ok_0.1
    } else {
        p
    };
    lemma_read_fstring_extend(d, e, p1);
    let p2 = spec_read_fstring(d, p1)->Ok_0.1;
    lemma_read_fstring_extend(d, e, p2);
    let p3 = spec_read_fstring(d, p2)->Ok_0.1;
    lemma_read_fstring_extend(d, e, p3);
}

proof fn lemma_session_extend(d: Seq<u8>, e: Seq<u8>, p: int)
    requires
        spec_session(d, p) is Ok,
    ensures
        spec_session(d + e, p) == spec_session(d, p),
        spec_session(d, p)->Ok_0.3 <= d.len(),
{
    lemma_read_u32_extend(d, e, p);
    let p1 = spec_read_u32(d, p)->Ok_0.1;
    lemma_read_u64_extend(d, e, p1);
    let p2 = spec_read_u64(d, p1)->Ok_0.1;
    lemma_read_u8_extend(d, e, p2);
}

proof fn lemma_mod_info_extend(d: Seq<u8>, e: Seq<u8>, p: int)
    requires
        spec_mod_info(d, p) is Ok,
    ensures
        spec_mod_info(d + e, p) == spec_mod_info(d, p),
        spec_mod_info(d, p)->Ok_0.4 <= d.len(),
{
    lemma_read_u32_extend(d, e, p);
    let p1 = spec_read_u32(d, p)->Ok_0.1;
    lemma_read_fstring_extend(d, e, p1);
    let p2 = spec_read_fstring(d, p1)->Ok_0.1;
    lemma_read_bool_u32_extend(d, e, p2);
    let p3 = spec_read_bool_u32(d, p2)->Ok_0.1;
    lemma_read_fstring_extend(d, e, p3);
}

proof fn lemma_tail_extend(d: Seq<u8>, e: Seq<u8>, p: int)
    requires
        spec_tail(d, p) is Ok,
    ensures
        spec_tail(d + e, p) == spec_tail(d, p),
        spec_tail(d, p)->Ok_0.3 <= d.len(),
{
    lemma_confirm_u32_extend(d, e, p, 1);
    let p1 = spec_confirm_u32(d, p, 1)->Ok_0;
    lemma_confirm_u32_extend(d, e, p1, 1);
    let p2 = spec_confirm_u32(d, p1, 1)->Ok_0;
    lemma_read_u64_extend(d, e, p2);
    let p3 = spec_read_u64(d, p2)->Ok_0.1;
    lemma_read_u64_extend(d, e, p3);
    let p4 = spec_read_u64(d, p3)->Ok_0.1;
    lemma_read_bool_u32_extend(d, e, p4);
}

/// The header is read from the front of the file alone: whatever bytes
/// follow a readable header (the compressed body), the same header and the
/// same body offset come out, and that offset lies within the header bytes.
pub proof fn lemma_header_independent_of_body(header: Seq<u8>, body: Seq<u8>)
    requires
        spec_parse_save_file_info(header) is Ok,
    ensures
        spec_parse_save_file_info(header + body) == spec_parse_save_file_info(header),
        spec_parse_save_file_info(header)->Ok_0.1 <= header.len(),
{
    let d = header;
    let e = body;
    lemma_versions_extend(d, e);
    let (ht, sv, bv, p1) = spec_versions(d)->Ok_0;
    lemma_names_extend(d, e, ht, p1);
    let p2 = spec_names(d, ht, p1)->Ok_0.4;
    lemma_session_extend(d, e, p2);
    let p3 = spec_session(d, p2)->Ok_0.3;
    lemma_mod_info_extend(d, e, p3);
    let p4 = spec_mod_info(d, p3)->Ok_0.4;
    lemma_tail_extend(d, e, p4);
}

/// The bytes of `d1` from `a` on are the bytes of `d2` from `b` on.
pub open spec fn same_tail(d1: Seq<u8>, a: int, d2: Seq<u8>, b: int) -> bool {
    &&& 0 <= a
    &&& 0 <= b
    &&& d1.len() - a == d2.len() - b
    &&& forall|i: int| 0 <= i < d1.len() - a ==> #[trigger] d1[a + i] == d2[b + i]
}

/// A read result with its end position moved by `k`.
pub open spec fn shift_pos<T>(r: Result<(T, int), HeaderError>, k: int) -> Result<
    (T, int),
    HeaderError,
> {
    match r {
        Ok((v, q)) => Ok((v, q + k)),
        Err(e) => Err(e),
    }
}

proof fn lemma_same_tail_advance(d1: Seq<u8>, a: int, d2: Seq<u8>, b: int, j: int)
    requires
        same_tail(d1, a, d2, b),
        j >= 0,
    ensures
        same_tail(d1, a + j, d2, b + j),
{
    assert forall|i: int| 0 <= i < d1.len() - (a + j) implies #[trigger] d1[(a + j) + i] == d2[(b
        + j) + i] by {
        assert(d1[a + (j + i)] == d2[b + (j + i)]);
    }
}

proof fn lemma_u32_shift(d1: Seq<u8>, a: int, d2: Seq<u8>, b: int)
    requires
        same_tail(d1, a, d2, b),
    ensures
        spec_read_u32(d1, a) == shift_pos(spec_read_u32(d2, b), a - b),
{
    if a + 4 <= d1.len() {
        assert(d1[a + 0] == d2[b + 0]);
        assert(d1[a + 1] == d2[b + 1]);
        assert(d1[a + 2] == d2[b + 2]);
        assert(d1[a + 3] == d2[b + 3]);
    }
}

proof fn lemma_u8_shift(d1: Seq<u8>, a: int, d2: Seq<u8>, b: int)
    requires
        same_tail(d1, a, d2, b),
    ensures
        spec_read_u8(d1, a) == shift_pos(spec_read_u8(d2, b), a - b),
{
    if a + 1 <= d1.len() {
        assert(d1[a + 0] == d2[b + 0]);
    }
}

proof fn lemma_u64_shift(d1: Seq<u8>, a: int, d2: Seq<u8>, b: int)
    requires
        same_tail(d1, a, d2, b),
    ensures
        spec_read_u64(d1, a) == shift_pos(spec_read_u64(d2, b), a - b),
{
    if a + 8 <= d1.len() {
        lemma_u32_shift(d1, a, d2, b);
        lemma_same_tail_advance(d1, a, d2, b, 4);
        lemma_u32_shift(d1, a + 4, d2, b + 4);
        assert(le_u32_value(d1, a) == le_u32_value(d2, b));
        assert(le_u32_value(d1, a + 4) == le_u32_value(d2, b + 4));
    }
}

proof fn lemma_bool_shift(d1: Seq<u8>, a: int, d2: Seq<u8>, b: int)
    requires
        same_tail(d1, a, d2, b),
    ensures
        spec_read_bool_u32(d1, a) == shift_pos(spec_read_bool_u32(d2, b), a - b),
{
    lemma_u32_shift(d1, a, d2, b);
}

proof fn lemma_confirm_shift(d1: Seq<u8>, a: int, d2: Seq<u8>, b: int, expected: u32)
    requires
        same_tail(d1, a, d2, b),
    ensures
        spec_confirm_u32(d1, a, expected) == match spec_confirm_u32(d2, b, expected) {
            Ok(q) => Ok(q + (a - b)),
            Err(e) => Err(e),
        },
{
    lemma_u32_shift(d1, a, d2, b);
}

proof fn lemma_fstring_shift(d1: Seq<u8>, a: int, d2: Seq<u8>, b: int)
    requires
        same_tail(d1, a, d2, b),
    ensures
        spec_read_fstring(d1, a) == shift_pos(spec_read_fstring(d2, b), a - b),
{
    lemma_u32_shift(d1, a, d2, b);
    if a + 4 <= d1.len() {
        let raw = spec_read_u32(d1, a)->Ok_0.0;
        let q1 = a + 4;
        let q2 = b + 4;
        if raw != 0 {
            if raw < 0x8000_0000 {
                let n = raw as int;
                if q1 + n <= d1.len() {
                    assert forall|i: int| 0 <= i < n - 1 implies #[trigger] d1.subrange(q1, q1 + n - 1)[i]
                        == d2.subrange(q2, q2 + n - 1)[i] by {
                        assert(d1[a + (4 + i)] == d2[b + (4 + i)]);
                    }
                    assert(d1.subrange(q1, q1 + n - 1) =~= d2.subrange(q2, q2 + n - 1));
                }
            } else {
                let n = 0x1_0000_0000 - raw as int;
                if q1 + 2 * n <= d1.len() {
                    assert forall|i: int| 0 <= i < n - 1 implies #[trigger] le_u16_units(d1, q1, n - 1)[i]
                        == le_u16_units(d2, q2, n - 1)[i] by {
                        assert(d1[a + (4 + 2 * i)] == d2[b + (4 + 2 * i)]);
                        assert(d1[a + (4 + 2 * i + 1)] == d2[b + (4 + 2 * i + 1)]);
                    }
                    assert(le_u16_units(d1, q1, n - 1) =~= le_u16_units(d2, q2, n - 1));
                }
            }
        }
    }
}

proof fn lemma_session_shift(d1: Seq<u8>, a: int, d2: Seq<u8>, b: int)
    requires
        same_tail(d1, a, d2, b),
    ensures
        spec_session(d1, a) == match spec_session(d2, b) {
            Ok((pd, ticks, vis, q)) => Ok((pd, ticks, vis, q + (a - b))),
            Err(e) => Err(e),
        },
{
    lemma_u32_shift(d1, a, d2, b);
    lemma_same_tail_advance(d1, a, d2, b, 4);
    lemma_u64_shift(d1, a + 4, d2, b + 4);
    lemma_same_tail_advance(d1, a, d2, b, 12);
    lemma_u8_shift(d1, a + 12, d2, b + 12);
}

proof fn lemma_mod_info_shift(d1: Seq<u8>, a: int, d2: Seq<u8>, b: int)
    requires
        same_tail(d1, a, d2, b),
    ensures
        spec_mod_info(d1, a) == match spec_mod_info(d2, b) {
            Ok((eov, meta, modded, ident, q)) => Ok((eov, meta, modded, ident, q + (a - b))),
            Err(e) => Err(e),
        },
{
    lemma_u32_shift(d1, a, d2, b);
    lemma_same_tail_advance(d1, a, d2, b, 4);
    lemma_fstring_shift(d1, a + 4, d2, b + 4);
    if spec_read_fstring(d2, b + 4) is Ok {
        let q = spec_read_fstring(d2, b + 4)->Ok_0.1;
        lemma_same_tail_advance(d1, a, d2, b, q - b);
        lemma_bool_shift(d1, a + (q - b), d2, q);
        lemma_same_tail_advance(d1, a, d2, b, q - b + 4);
        lemma_fstring_shift(d1, a + (q - b + 4), d2, q + 4);
    }
}

proof fn lemma_tail_shift(d1: Seq<u8>, a: int, d2: Seq<u8>, b: int)
    requires
        same_tail(d1, a, d2, b),
    ensures
        spec_tail(d1, a) == match spec_tail(d2, b) {
            Ok((h0, h1, creative, q)) => Ok((h0, h1, creative, q + (a - b))),
            Err(e) => Err(e),
        },
{
    lemma_confirm_shift(d1, a, d2, b, 1);
    lemma_same_tail_advance(d1, a, d2, b, 4);
    lemma_confirm_shift(d1, a + 4, d2, b + 4, 1);
    lemma_same_tail_advance(d1, a, d2, b, 8);
    lemma_u64_shift(d1, a + 8, d2, b + 8);
    lemma_same_tail_advance(d1, a, d2, b, 16);
    lemma_u64_shift(d1, a + 16, d2, b + 16);
    lemma_same_tail_advance(d1, a, d2, b, 24);
    lemma_bool_shift(d1, a + 24, d2, b + 24);
}

/// The two headers of the law below: type 13 without, type 14 with a
/// save-name field.
pub open spec fn header_13(versions: Seq<u8>, rest: Seq<u8>) -> Seq<u8> {
    seq![13u8, 0u8, 0u8, 0u8] + versions + rest
}

pub open spec fn header_14(versions: Seq<u8>, name_field: Seq<u8>, rest: Seq<u8>) -> Seq<u8> {
    seq![14u8, 0u8, 0u8, 0u8] + versions + name_field + rest
}

proof fn lemma_versions_13_14(versions: Seq<u8>, name_field: Seq<u8>, rest: Seq<u8>)
    requires
        versions.len() == 8,
    ensures
        match spec_versions(header_13(versions, rest)) {
            Ok((ht, sv, bv, p)) => ht == 13 && p == 12 && spec_versions(
                header_14(versions, name_field, rest),
            ) == Ok::<(u32, u32, u32, int), HeaderError>((14u32, sv, bv, 12int)),
            Err(e) => spec_versions(header_14(versions, name_field, rest)) == Err::<
                (u32, u32, u32, int),
                HeaderError,
            >(e),
        },
{
    let d13 = header_13(versions, rest);
    let d14 = header_14(versions, name_field, rest);
    assert(d13[0] == 13u8 && d13[1] == 0u8 && d13[2] == 0u8 && d13[3] == 0u8);
    assert(d14[0] == 14u8 && d14[1] == 0u8 && d14[2] == 0u8 && d14[3] == 0u8);
    assert forall|i: int| 4 <= i < 12 implies d13[i] == d14[i] by {
        assert(d13[i] == versions[i - 4]);
        assert(d14[i] == versions[i - 4]);
    }
    assert(spec_read_u32(d13, 0) == Ok::<(u32, int), HeaderError>((13u32, 4int)));
    assert(spec_read_u32(d14, 0) == Ok::<(u32, int), HeaderError>((14u32, 4int)));
    assert(spec_read_u32(d13, 4) == spec_read_u32(d14, 4));
    assert(spec_read_u32(d13, 8) == spec_read_u32(d14, 8));
}

proof fn lemma_same_rest_13_14(versions: Seq<u8>, name_field: Seq<u8>, rest: Seq<u8>)
    requires
        versions.len() == 8,
    ensures
        same_tail(
            header_13(versions, rest),
            12,
            header_14(versions, name_field, rest),
            12 + name_field.len() as int,
        ),
        same_tail(header_14(versions, name_field, rest), 12, name_field + rest, 0),
{
    let d13 = header_13(versions, rest);
    let d14 = header_14(versions, name_field, rest);
    let l = name_field.len() as int;
    let nr = name_field + rest;
    assert forall|i: int| 0 <= i < d14.len() - 12 implies #[trigger] d14[12 + i] == nr[0 + i] by {}
    assert forall|i: int| 0 <= i < d13.len() - 12 implies #[trigger] d13[12 + i] == d14[(12 + l)
        + i] by {
        assert(d13[12 + i] == rest[i]);
        assert(d14[(12 + l) + i] == rest[i]);
    }
}

proof fn lemma_names_13_14(versions: Seq<u8>, name_field: Seq<u8>, rest: Seq<u8>, save_name: Seq<char>)
    requires
        versions.len() == 8,
        spec_read_fstring(name_field, 0) == Ok::<(Seq<char>, int), HeaderError>(
            (save_name, name_field.len() as int),
        ),
    ensures
        match spec_names(header_13(versions, rest), 13, 12) {
            Ok((sn, mn, mo, ses, q)) => sn == Seq::<char>::empty() && spec_names(
                header_14(versions, name_field, rest),
                14,
                12,
            ) == Ok::<(Seq<char>, Seq<char>, Seq<char>, Seq<char>, int), HeaderError>(
                (save_name, mn, mo, ses, q + name_field.len()),
            ),
            Err(e) => spec_names(header_14(versions, name_field, rest), 14, 12) == Err::<
                (Seq<char>, Seq<char>, Seq<char>, Seq<char>, int),
                HeaderError,
            >(e),
        },
{
    let d13 = header_13(versions, rest);
    let d14 = header_14(versions, name_field, rest);
    let l = name_field.len() as int;
    lemma_same_rest_13_14(versions, name_field, rest);
    lemma_read_fstring_extend(name_field, rest, 0);
    lemma_fstring_shift(d14, 12, name_field + rest, 0);
    assert(spec_read_fstring(d14, 12) == Ok::<(Seq<char>, int), HeaderError>(
        (save_name, 12 + l),
    ));
    let b0 = 12 + l;
    lemma_fstring_shift(d13, 12, d14, b0);
    if spec_read_fstring(d14, b0) is Ok {
        let b1 = spec_read_fstring(d14, b0)->Ok_0.1;
        lemma_same_tail_advance(d13, 12, d14, b0, b1 - b0);
        lemma_fstring_shift(d13, b1 - l, d14, b1);
        if spec_read_fstring(d14, b1) is Ok {
            let b2 = spec_read_fstring(d14, b1)->Ok_0.1;
            lemma_same_tail_advance(d13, 12, d14, b0, b2 - b0);
            lemma_fstring_shift(d13, b2 - l, d14, b2);
        }
    }
}

/// A header of type 13 (Update 8) has no save-name field: it reads as the
/// header of type 14 that holds the same fields with a save-name field
/// inserted after the three version numbers, but with an empty save name.
/// Both succeed or fail alike; on success the fields agree but for the
/// header type and the save name, and the body starts later by the length
/// of the save-name field.
#[verifier::rlimit(60)]
#[verifier::spinoff_prover]
pub proof fn law_type_13_header_has_no_save_name(
    versions: Seq<u8>,
    name_field: Seq<u8>,
    rest: Seq<u8>,
    save_name: Seq<char>,
)
    requires
        versions.len() == 8,
        spec_read_fstring(name_field, 0) == Ok::<(Seq<char>, int), HeaderError>(
            (save_name, name_field.len() as int),
        ),
    ensures
        match spec_parse_save_file_info(header_13(versions, rest)) {
            Ok((info, off)) => info.save_header_type == 13 && info.save_name == Seq::<
                char,
            >::empty() && spec_parse_save_file_info(header_14(versions, name_field, rest))
                == Ok::<(SaveFileInfoModel, int), HeaderError>(
                (
                    SaveFileInfoModel { save_header_type: 14, save_name: save_name, ..info },
                    off + name_field.len(),
                ),
            ),
            Err(e) => spec_parse_save_file_info(header_14(versions, name_field, rest)) == Err::<
                (SaveFileInfoModel, int),
                HeaderError,
            >(e),
        },
{
    let d13 = header_13(versions, rest);
    let d14 = header_14(versions, name_field, rest);
    let l = name_field.len() as int;
    lemma_versions_13_14(versions, name_field, rest);
    lemma_names_13_14(versions, name_field, rest, save_name);
    lemma_same_rest_13_14(versions, name_field, rest);
    if spec_versions(d13) is Ok && spec_names(d13, 13, 12) is Ok {
        let a2 = spec_names(d13, 13, 12)->Ok_0.4;
        lemma_same_tail_advance(d13, 12, d14, 12 + l, a2 - 12);
        lemma_session_shift(d13, a2, d14, a2 + l);
        if spec_session(d13, a2) is Ok {
            let a3 = spec_session(d13, a2)->Ok_0.3;
            lemma_same_tail_advance(d13, 12, d14, 12 + l, a3 - 12);
            lemma_mod_info_shift(d13, a3, d14, a3 + l);
            if spec_mod_info(d13, a3) is Ok {
                let a4 = spec_mod_info(d13, a3)->Ok_0.4;
                lemma_same_tail_advance(d13, 12, d14, 12 + l, a4 - 12);
                lemma_tail_shift(d13, a4, d14, a4 + l);
            }
        }
    }
}

/// In a readable header of type 13 the save name is empty and the map name
/// is the first string after the three version numbers.
pub proof fn law_type_13_map_name_follows_versions(d: Seq<u8>)
    requires
        spec_parse_save_file_info(d) matches Ok((info, _)) && info.save_header_type == 13,
    ensures
        spec_parse_save_file_info(d)->Ok_0.0.save_name == Seq::<char>::empty(),
        spec_read_fstring(d, 12) is Ok,
        spec_parse_save_file_info(d)->Ok_0.0.map_name == spec_read_fstring(d, 12)->Ok_0.0,
{
}

/// Stage one of the header: the three version fields.
fn read_versions(c: &mut Cursor) -> (r: Result<(u32, u32, u32), HeaderError>)
    requires
        old(c).pos == 0,
        old(c).pos <= old(c).data@.len(),
    ensures
        final(c).data@ == old(c).data@,
        final(c).pos <= final(c).data@.len(),
        match spec_versions(old(c).data@) {
            Ok((ht, sv, bv, q)) => r == Ok::<(u32, u32, u32), HeaderError>((ht, sv, bv))
                && final(c).pos == q,
            Err(e) => r == Err::<(u32, u32, u32), HeaderError>(e),
        },
{
    let save_header_type = c.u32()?;
    // 13 = Update 8 header (no saveName field).
    if !(save_header_type == 13 || save_header_type == 14) {
        return Err(HeaderError::UnsupportedHeaderType(save_header_type));
    }
    let save_version = c.u32()?;
    // 42 = Update 8.
    if !(save_version == 42 || save_version == 52 || save_version == 53 || save_version == 58
        || save_version == 59 || save_version == 60) {
        return Err(HeaderError::UnsupportedSaveVersion(save_version));
    }
    let build_version = c.u32()?;
    Ok((save_header_type, save_version, build_version))
}

/// Stage two: the names.
fn read_names(c: &mut Cursor, save_header_type: u32) -> (r: Result<
    (String, String, String, String),
    HeaderError,
>)
    requires
        old(c).pos <= old(c).data@.len(),
    ensures
        final(c).data@ == old(c).data@,
        final(c).pos <= final(c).data@.len(),
        match spec_names(old(c).data@, save_header_type, old(c).pos as int) {
            Ok((sn, mn, mo, ses, q)) => r matches Ok((a, b, d, e)) && a@ == sn && b@ == mn && d@
                == mo && e@ == ses && final(c).pos == q,
            Err(e) => r matches Err(e2) && e2 == e,
        },
{
    // saveName exists from header type 14 (1.0) on.
    let save_name = if save_header_type >= 14 {
        c.string_owned()?
    } else {
        String::new()
    };
    let map_name = c.string_owned()?;
    let map_options = c.string_owned()?;
    let session_name = c.string_owned()?;
    Ok((save_name, map_name, map_options, session_name))
}

/// Stage three: play duration, timestamp and visibility.
fn read_session(c: &mut Cursor) -> (r: Result<(u32, u64, u8), HeaderError>)
    requires
        old(c).pos <= old(c).data@.len(),
    ensures
        final(c).data@ == old(c).data@,
        final(c).pos <= final(c).data@.len(),
        match spec_session(old(c).data@, old(c).pos as int) {
            Ok((pd, ticks, vis, q)) => r == Ok::<(u32, u64, u8), HeaderError>((pd, ticks, vis))
                && final(c).pos == q,
            Err(e) => r == Err::<(u32, u64, u8), HeaderError>(e),
        },
{
    let play_duration_in_seconds = c.u32()?;
    let save_date_time_in_ticks = c.u64()?;
    let session_visibility = c.u8()?;
    Ok((play_duration_in_seconds, save_date_time_in_ticks, session_visibility))
}

/// Stage four: editor version, mod metadata, modded flag, identifier.
fn read_mod_info(c: &mut Cursor, save_version: u32) -> (r: Result<
    (u32, String, bool, String),
    HeaderError,
>)
    requires
        old(c).pos <= old(c).data@.len(),
        supported_save_version(save_version),
    ensures
        final(c).data@ == old(c).data@,
        final(c).pos <= final(c).data@.len(),
        match spec_mod_info(old(c).data@, old(c).pos as int) {
            Ok((eov, meta, modded, ident, q)) => r matches Ok((a, b, d, e)) && a == eov && b@
                == meta && d == modded && e@ == ident && final(c).pos == q,
            Err(e) => r matches Err(e2) && e2 == e,
        },
{
    let editor_object_version = if save_version >= 7 {
        c.u32()?
    } else {
        0
    };
    let mod_metadata = if save_version >= 8 {
        c.string_owned()?
    } else {
        String::new()
    };
    let is_modded_save = c.bool_u32()?;
    let save_identifier = if save_version >= 10 {
        c.string_owned()?
    } else {
        String::new()
    };
    Ok((editor_object_version, mod_metadata, is_modded_save, save_identifier))
}

/// Stage five: partition markers, data hash and the creative flag.
fn read_tail(c: &mut Cursor, save_version: u32) -> (r: Result<([u64; 2], bool), HeaderError>)
    requires
        old(c).pos <= old(c).data@.len(),
        supported_save_version(save_version),
    ensures
        final(c).data@ == old(c).data@,
        final(c).pos <= final(c).data@.len(),
        match spec_tail(old(c).data@, old(c).pos as int) {
            Ok((h0, h1, creative, q)) => r matches Ok((h, cr)) && h[0] == h0 && h[1] == h1 && cr
                == creative && final(c).pos == q,
            Err(e) => r matches Err(e2) && e2 == e,
        },
{
    let mut save_data_hash = [0u64;2];
    let mut is_creative_mode_enabled = false;
    if save_version >= 13 {
        c.confirm_u32(1)?;  // isPartitionedWorld
        c.confirm_u32(1)?;
        let h0 = c.u64()?;
        let h1 = c.u64()?;
        save_data_hash = [h0, h1];
        is_creative_mode_enabled = c.bool_u32()?;
    }
    Ok((save_data_hash, is_creative_mode_enabled))
}

/// Returns the header and the offset where the compressed body begins.
pub fn parse_save_file_info(data: &[u8]) -> (r: Result<(SaveFileInfo, usize), HeaderError>)
    ensures
        header_result_view(r) == spec_parse_save_file_info(data@),
{
    let mut c = Cursor::new(data, 0);
    let (save_header_type, save_version, build_version) = read_versions(&mut c)?;
    let (save_name, map_name, map_options, session_name) = read_names(&mut c, save_header_type)?;
    let (play_duration_in_seconds, save_date_time_in_ticks, session_visibility) = read_session(
        &mut c,
    )?;
    let (editor_object_version, mod_metadata, is_modded_save, save_identifier) = read_mod_info(
        &mut c,
        save_version,
    )?;
    let (save_data_hash, is_creative_mode_enabled) = read_tail(&mut c, save_version)?;
    let info = SaveFileInfo {
        save_header_type,
        save_version,
        build_version,
        save_name,
        map_name,
        map_options,
        session_name,
        play_duration_in_seconds,
        save_date_time_in_ticks,
        session_visibility,
        editor_object_version,
        mod_metadata,
        is_modded_save,
        save_identifier,
        save_data_hash,
        is_creative_mode_enabled,
    };
    Ok((info, c.pos))
}

} // verus!
