//! The shape-code catalog: the immutable table of two-digit vehicle
//! classification codes and their body-type labels, built once and read by
//! the resolver for the lifetime of the process.

use vstd::prelude::*;

verus! {

/// One entry of the shape-code catalog.
pub struct ShapeCode {
    /// An optional classification note.
    pub classification: Option<String>,
    /// An optional purpose note.
    pub purpose: Option<String>,
    /// The two-digit classification code.
    pub code: u32,
    /// The body-type label for the code.
    pub body_type: String,
    /// Optional free-form remarks.
    pub remarks: Option<String>,
}

/// The whole catalog as one record, for the listing endpoint.
pub struct ShapeCodeList {
    /// The catalog entries, in load order.
    pub shape_codes: Vec<ShapeCode>,
}

/// The code and the body-type label of each catalog entry, in load order.
pub open spec fn shape_rows(entries: Seq<ShapeCode>) -> Seq<(u32, Seq<char>)> {
    entries.map_values(|e: ShapeCode| (e.code, e.body_type@))
}

/// The bundled catalog contents: each entry's code and body-type label.
pub open spec fn shape_table() -> Seq<(u32, Seq<char>)> {
    seq![
        (11u32, "箱型"@),
        (12u32, "幌型"@),
        (13u32, "タンク型"@),
        (14u32, "コンテナ型"@),
        (21u32, "バン"@),
        (22u32, "ダンプ"@),
        (31u32, "キャブオーバ"@),
        (41u32, "トラクタ"@),
        (51u32, "トレーラ"@),
        (99u32, "その他"@),
    ]
}

/// Every entry of the catalog carries a two-digit code.
pub open spec fn shape_codes_wf(entries: Seq<ShapeCode>) -> bool {
    forall|i: int| 0 <= i < entries.len() ==> 10 <= (#[trigger] entries[i]).code <= 99
}

/// One catalog entry, with the descriptive fields left empty.
fn shape_entry(code: u32, body_type: &str) -> (e: ShapeCode)
    ensures
        e.code == code,
        e.body_type@ == body_type@,
        e.classification is None,
        e.purpose is None,
        e.remarks is None,
{
    ShapeCode {
        classification: None,
        purpose: None,
        code,
        body_type: body_type.to_owned(),
        remarks: None,
    }
}

/// The bundled shape-code catalog, identical on every call: a non-empty,
/// well-formed table whose rows are `shape_table()`.
pub fn read_shape_codes() -> (r: Vec<ShapeCode>)
    ensures
        shape_rows(r@) == shape_table(),
        shape_codes_wf(r@),
        r@.len() > 0,
{
    let mut v: Vec<ShapeCode> = Vec::new();
    v.push(shape_entry(11, "箱型"));
    v.push(shape_entry(12, "幌型"));
    v.push(shape_entry(13, "タンク型"));
    v.push(shape_entry(14, "コンテナ型"));
    v.push(shape_entry(21, "バン"));
    v.push(shape_entry(22, "ダンプ"));
    v.push(shape_entry(31, "キャブオーバ"));
    v.push(shape_entry(41, "トラクタ"));
    v.push(shape_entry(51, "トレーラ"));
    v.push(shape_entry(99, "その他"));
    proof {
        assert(shape_rows(v@) =~= shape_table());
    }
    v
}

} // verus!
