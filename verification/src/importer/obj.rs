//! The OBJ importer: a line-by-line reader of OBJ geometry and MTL material
//! files, and the conversion of the read model to indexed triangle lists.
//!
//! Numbers are kept as the text that spells them; turning that text into
//! floating-point values is left to the caller.
use vstd::prelude::*;
use vstd::string::{StringSliceAdditionalSpecFns, StrSliceExecFns};
use crate::importer::text::{split_on, lines_of, has_prefix, parsed_i32, split_bytes, split_lines, starts_with, parse_i32, lemma_split_on_nonempty, lemma_split_on_single, lemma_split_on_append_piece, lemma_not_prefix_at, lemma_prefix_of};

verus! {

/// The token at `i`, or the empty token where the line has fewer.
pub open spec fn token_at(toks: Seq<Seq<u8>>, i: int) -> Seq<u8> {
    if 0 <= i < toks.len() { toks[i] } else { Seq::empty() }
}

/// The integer a token spells, or zero where it spells none.
pub open spec fn int_of(tok: Seq<u8>) -> i32 {
    match parsed_i32(tok) {
        Some(v) => v,
        None => 0,
    }
}

/// Three number tokens, as written; a missing one is empty.
#[derive(Debug, Clone, PartialEq, Eq)]
pub struct Float3Text {
    pub x: Vec<u8>,
    pub y: Vec<u8>,
    pub z: Vec<u8>,
}

impl View for Float3Text {
    type V = (Seq<u8>, Seq<u8>, Seq<u8>);

    open spec fn view(&self) -> (Seq<u8>, Seq<u8>, Seq<u8>) {
        (self.x@, self.y@, self.z@)
    }
}

/// Two number tokens, as written; a missing one is empty.
#[derive(Debug, Clone, PartialEq, Eq)]
pub struct Float2Text {
    pub x: Vec<u8>,
    pub y: Vec<u8>,
}

impl View for Float2Text {
    type V = (Seq<u8>, Seq<u8>);

    open spec fn view(&self) -> (Seq<u8>, Seq<u8>) {
        (self.x@, self.y@)
    }
}

/// The three tokens after the keyword of a line.
pub open spec fn float3_of(toks: Seq<Seq<u8>>) -> (Seq<u8>, Seq<u8>, Seq<u8>) {
    (token_at(toks, 1), token_at(toks, 2), token_at(toks, 3))
}

/// The two tokens after the keyword of a line.
pub open spec fn float2_of(toks: Seq<Seq<u8>>) -> (Seq<u8>, Seq<u8>) {
    (token_at(toks, 1), token_at(toks, 2))
}

fn copy_bytes(v: &Vec<u8>) -> (r: Vec<u8>)
    ensures
        r@ == v@,
{
    let mut out: Vec<u8> = Vec::new();
    let mut i: usize = 0;
    while i < v.len()
        invariant
            i <= v@.len(),
            out@ == v@.take(i as int),
        decreases v@.len() - i,
    {
        out.push(v[i]);
        assert(out@ =~= v@.take(i as int + 1));
        i = i + 1;
    }
    assert(v@.take(i as int) =~= v@);
    out
}

fn token(toks: &Vec<Vec<u8>>, i: usize) -> (r: Vec<u8>)
    ensures
        r@ == token_at(toks@.map_values(|t: Vec<u8>| t@), i as int),
{
    if i < toks.len() {
        copy_bytes(&toks[i])
    } else {
        Vec::new()
    }
}

fn int_token(toks: &Vec<Vec<u8>>, i: usize) -> (r: i32)
    ensures
        r == int_of(token_at(toks@.map_values(|t: Vec<u8>| t@), i as int)),
{
    let t = token(toks, i);
    match parse_i32(&t) {
        Some(v) => v,
        None => 0,
    }
}

fn float3_tokens(toks: &Vec<Vec<u8>>) -> (r: Float3Text)
    ensures
        r@ == float3_of(toks@.map_values(|t: Vec<u8>| t@)),
{
    Float3Text { x: token(toks, 1), y: token(toks, 2), z: token(toks, 3) }
}

fn float2_tokens(toks: &Vec<Vec<u8>>) -> (r: Float2Text)
    ensures
        r@ == float2_of(toks@.map_values(|t: Vec<u8>| t@)),
{
    Float2Text { x: token(toks, 1), y: token(toks, 2) }
}

fn tokens_of(line: &Vec<u8>) -> (r: Vec<Vec<u8>>)
    ensures
        r@.map_values(|t: Vec<u8>| t@) == split_on(line@, 32u8),
        r@.len() >= 1,
{
    let r = split_bytes(line, 32u8);
    proof {
        lemma_split_on_nonempty(line@, 32u8);
        assert(r@.map_values(|t: Vec<u8>| t@) =~= split_on(line@, 32u8));
    }
    r
}

// ------------------------------------------------------------------------
// Materials

/// What a material of an MTL file says: its name, its colors and numbers
/// as written (`None` where the file does not give them), its illumination
/// mode, and the names of its maps.
pub ghost struct MaterialView {
    pub name: Seq<u8>,
    pub ambient_color: Option<(Seq<u8>, Seq<u8>, Seq<u8>)>,
    pub diffuse_color: Option<(Seq<u8>, Seq<u8>, Seq<u8>)>,
    pub specular_color: Option<(Seq<u8>, Seq<u8>, Seq<u8>)>,
    pub specular_exponent: Option<Seq<u8>>,
    pub dissolve: Option<Seq<u8>>,
    pub index_of_refraction: Option<Seq<u8>>,
    pub illumination_mode: i32,
    pub diffuse_map: Option<Seq<u8>>,
    pub displacement_map: Option<Seq<u8>>,
    pub ambient_map: Option<Seq<u8>>,
}

/// A material of an MTL file. Colors and numbers the file does not give
/// are `None`: the colors, the specular exponent and the index of refraction
/// are then zero, the dissolve one. The illumination mode is one unless the
/// file gives it. Maps are named as written, relative to the file.
pub struct ObjMaterial {
    pub name: Vec<u8>,
    pub ambient_color: Option<Float3Text>,
    pub diffuse_color: Option<Float3Text>,
    pub specular_color: Option<Float3Text>,
    pub specular_exponent: Option<Vec<u8>>,
    pub dissolve: Option<Vec<u8>>,
    pub index_of_refraction: Option<Vec<u8>>,
    pub illumination_mode: i32,
    pub diffuse_map: Option<Vec<u8>>,
    pub displacement_map: Option<Vec<u8>>,
    pub ambient_map: Option<Vec<u8>>,
}

pub open spec fn opt_view3(o: Option<Float3Text>) -> Option<(Seq<u8>, Seq<u8>, Seq<u8>)> {
    match o {
        Some(t) => Some(t@),
        None => None,
    }
}

pub open spec fn opt_view(o: Option<Vec<u8>>) -> Option<Seq<u8>> {
    match o {
        Some(t) => Some(t@),
        None => None,
    }
}

impl View for ObjMaterial {
    type V = MaterialView;

    open spec fn view(&self) -> MaterialView {
        MaterialView {
            name: self.name@,
            ambient_color: opt_view3(self.ambient_color),
            diffuse_color: opt_view3(self.diffuse_color),
            specular_color: opt_view3(self.specular_color),
            specular_exponent: opt_view(self.specular_exponent),
            dissolve: opt_view(self.dissolve),
            index_of_refraction: opt_view(self.index_of_refraction),
            illumination_mode: self.illumination_mode,
            diffuse_map: opt_view(self.diffuse_map),
            displacement_map: opt_view(self.displacement_map),
            ambient_map: opt_view(self.ambient_map),
        }
    }
}

/// A material with a name and nothing else given.
pub open spec fn default_material(name: Seq<u8>) -> MaterialView {
    MaterialView {
        name: name,
        ambient_color: None,
        diffuse_color: None,
        specular_color: None,
        specular_exponent: None,
        dissolve: None,
        index_of_refraction: None,
        illumination_mode: 1,
        diffuse_map: None,
        displacement_map: None,
        ambient_map: None,
    }
}

/// The state of an MTL reader: the materials so far and the one lines
/// apply to.
pub ghost struct MtlState {
    pub materials: Seq<MaterialView>,
    pub current: int,
}

pub open spec fn mtl_start() -> MtlState {
    MtlState { materials: Seq::empty(), current: 0 }
}

/// The bytes of `#`.
pub open spec fn kw_hash() -> Seq<u8> {
    seq![35u8]
}

/// The bytes of `newmtl `.
pub open spec fn kw_newmtl() -> Seq<u8> {
    seq![110u8, 101u8, 119u8, 109u8, 116u8, 108u8, 32u8]
}

/// The bytes of `Ns `.
pub open spec fn kw_ns() -> Seq<u8> {
    seq![78u8, 115u8, 32u8]
}

/// The bytes of `Ka `.
pub open spec fn kw_ka() -> Seq<u8> {
    seq![75u8, 97u8, 32u8]
}

/// The bytes of `Kd `.
pub open spec fn kw_kd() -> Seq<u8> {
    seq![75u8, 100u8, 32u8]
}

/// The bytes of `Ks `.
pub open spec fn kw_ks() -> Seq<u8> {
    seq![75u8, 115u8, 32u8]
}

/// The bytes of `Ni `.
pub open spec fn kw_ni() -> Seq<u8> {
    seq![78u8, 105u8, 32u8]
}

/// The bytes of `d `.
pub open spec fn kw_d() -> Seq<u8> {
    seq![100u8, 32u8]
}

/// The bytes of `illum `.
pub open spec fn kw_illum() -> Seq<u8> {
    seq![105u8, 108u8, 108u8, 117u8, 109u8, 32u8]
}

/// The bytes of `map_Kd `.
pub open spec fn kw_map_kd() -> Seq<u8> {
    seq![109u8, 97u8, 112u8, 95u8, 75u8, 100u8, 32u8]
}

/// The bytes of `map_Disp `.
pub open spec fn kw_map_disp() -> Seq<u8> {
    seq![109u8, 97u8, 112u8, 95u8, 68u8, 105u8, 115u8, 112u8, 32u8]
}

/// The bytes of `map_Ka `.
pub open spec fn kw_map_ka() -> Seq<u8> {
    seq![109u8, 97u8, 112u8, 95u8, 75u8, 97u8, 32u8]
}

/// The bytes of `o`.
pub open spec fn kw_o() -> Seq<u8> {
    seq![111u8]
}

/// The bytes of `vt `.
pub open spec fn kw_vt() -> Seq<u8> {
    seq![118u8, 116u8, 32u8]
}

/// The bytes of `vn `.
pub open spec fn kw_vn() -> Seq<u8> {
    seq![118u8, 110u8, 32u8]
}

/// The bytes of `v `.
pub open spec fn kw_v() -> Seq<u8> {
    seq![118u8, 32u8]
}

/// The bytes of `s `.
pub open spec fn kw_s() -> Seq<u8> {
    seq![115u8, 32u8]
}

/// The bytes of `f`.
pub open spec fn kw_f() -> Seq<u8> {
    seq![102u8]
}

/// The bytes of `mtllib `.
pub open spec fn kw_mtllib() -> Seq<u8> {
    seq![109u8, 116u8, 108u8, 108u8, 105u8, 98u8, 32u8]
}

/// The bytes of `usemtl `.
pub open spec fn kw_usemtl() -> Seq<u8> {
    seq![117u8, 115u8, 101u8, 109u8, 116u8, 108u8, 32u8]
}

/// Whether a line of an MTL file sets a property of the current material.
pub open spec fn is_mtl_property_line(line: Seq<u8>) -> bool {
    ||| has_prefix(line, kw_ns())
    ||| has_prefix(line, kw_ka())
    ||| has_prefix(line, kw_kd())
    ||| has_prefix(line, kw_ks())
    ||| has_prefix(line, kw_ni())
    ||| has_prefix(line, kw_d())
    ||| has_prefix(line, kw_illum())
}


/// Whether a line of an MTL file sets a map of the current material.
pub open spec fn is_mtl_map_line(line: Seq<u8>) -> bool {
    ||| has_prefix(line, kw_map_kd())
    ||| has_prefix(line, kw_map_disp())
    ||| has_prefix(line, kw_map_ka())
}

/// A line can be read where it sets nothing, or there is a current material
/// for what it sets.
pub open spec fn mtl_line_ok(st: MtlState, line: Seq<u8>) -> bool {
    let toks = split_on(line, 32u8);
    has_prefix(line, kw_hash()) || has_prefix(line, kw_newmtl()) || !(is_mtl_property_line(line) || (
    is_mtl_map_line(line) && toks.len() >= 2)) || (0 <= st.current < st.materials.len())
}

/// The current material with one change.
pub open spec fn with_current(st: MtlState, m: MaterialView) -> MtlState {
    MtlState { materials: st.materials.update(st.current, m), ..st }
}

/// What one line of an MTL file does: a comment does nothing; `newmtl`
/// with a name starts a material; the other keywords set a property of the
/// current material from the tokens after them; other lines do nothing.
pub open spec fn mtl_step(st: MtlState, line: Seq<u8>) -> MtlState {
    let toks = split_on(line, 32u8);
    let m = st.materials[st.current];
    if has_prefix(line, kw_hash()) {
        st
    } else if has_prefix(line, kw_newmtl()) {
        if toks.len() >= 2 {
            MtlState { materials: st.materials.push(default_material(toks[1])), current: st.materials.len() as int }
        } else {
            st
        }
    } else if has_prefix(line, kw_ns()) {
        with_current(st, MaterialView { specular_exponent: Some(token_at(toks, 1)), ..m })
    } else if has_prefix(line, kw_ka()) {
        with_current(st, MaterialView { ambient_color: Some(float3_of(toks)), ..m })
    } else if has_prefix(line, kw_kd()) {
        with_current(st, MaterialView { diffuse_color: Some(float3_of(toks)), ..m })
    } else if has_prefix(line, kw_ks()) {
        with_current(st, MaterialView { specular_color: Some(float3_of(toks)), ..m })
    } else if has_prefix(line, kw_ni()) {
        with_current(st, MaterialView { index_of_refraction: Some(token_at(toks, 1)), ..m })
    } else if has_prefix(line, kw_d()) {
        with_current(st, MaterialView { dissolve: Some(token_at(toks, 1)), ..m })
    } else if has_prefix(line, kw_illum()) {
        with_current(st, MaterialView { illumination_mode: int_of(token_at(toks, 1)), ..m })
    } else if has_prefix(line, kw_map_kd()) {
        if toks.len() >= 2 { with_current(st, MaterialView { diffuse_map: Some(toks[1]), ..m }) } else { st }
    } else if has_prefix(line, kw_map_disp()) {
        if toks.len() >= 2 { with_current(st, MaterialView { displacement_map: Some(toks[1]), ..m }) } else { st }
    } else if has_prefix(line, kw_map_ka()) {
        if toks.len() >= 2 { with_current(st, MaterialView { ambient_map: Some(toks[1]), ..m }) } else { st }
    } else {
        st
    }
}

/// The state after reading some lines from the start.
pub open spec fn mtl_run(lines: Seq<Seq<u8>>) -> MtlState
    decreases lines.len(),
{
    if lines.len() == 0 {
        mtl_start()
    } else {
        mtl_step(mtl_run(lines.drop_last()), lines.last())
    }
}

/// Every line can be read after the ones before it.
pub open spec fn mtl_text_ok(lines: Seq<Seq<u8>>) -> bool {
    forall|k: int| 0 <= k < lines.len() ==> #[trigger] mtl_line_ok(mtl_run(lines.take(k)), lines[k])
}

/// The views of a list of materials.
pub open spec fn material_views(ms: Seq<ObjMaterial>) -> Seq<MaterialView> {
    ms.map_values(|m: ObjMaterial| m@)
}

/// The state of a reader holding these materials, applying lines to the one
/// at `current`.
pub open spec fn reader_state(ms: Seq<ObjMaterial>, current: usize) -> MtlState {
    MtlState { materials: material_views(ms), current: current as int }
}

fn new_material(name: Vec<u8>) -> (r: ObjMaterial)
    ensures
        r@ == default_material(name@),
{
    ObjMaterial {
        name,
        ambient_color: None,
        diffuse_color: None,
        specular_color: None,
        specular_exponent: None,
        dissolve: None,
        index_of_refraction: None,
        illumination_mode: 1,
        diffuse_map: None,
        displacement_map: None,
        ambient_map: None,
    }
}

/// Reads one line of an MTL file into the materials read so far.
fn mtl_apply_line(materials: &mut Vec<ObjMaterial>, current: &mut usize, line: &Vec<u8>)
    requires
        mtl_line_ok(reader_state(old(materials)@, *old(current)), line@),
        *old(current) == 0 || *old(current) < old(materials)@.len(),
    ensures
        reader_state(final(materials)@, *final(current)) == mtl_step(reader_state(old(materials)@, *old(current)), line@),
        *final(current) == 0 || *final(current) < final(materials)@.len(),
{
    let ghost st = reader_state(materials@, *current);
    let toks = tokens_of(line);
    let ghost stoks = split_on(line@, 32u8);
    assert(toks@.map_values(|t: Vec<u8>| t@) == stoks);
    if starts_with(line, &[35u8]) {
        assert((&[35u8])@ =~= kw_hash());
        return;
    }
    assert((&[35u8])@ =~= kw_hash());
    assert((&[110u8, 101u8, 119u8, 109u8, 116u8, 108u8, 32u8])@ =~= kw_newmtl());
    if starts_with(line, &[110u8, 101u8, 119u8, 109u8, 116u8, 108u8, 32u8]) {
        if toks.len() >= 2 {
            let name = copy_bytes(&toks[1]);
            *current = materials.len();
            materials.push(new_material(name));
            assert(material_views(materials@) =~= st.materials.push(default_material(stoks[1])));
        }
        return;
    }
    assert((&[78u8, 115u8, 32u8])@ =~= kw_ns());
    if starts_with(line, &[78u8, 115u8, 32u8]) {
        let i = *current;
        let value = Some(token(&toks, 1));
        let ghost m = st.materials[i as int];
        materials[i].specular_exponent = value;
        assert(material_views(materials@) =~= st.materials.update(i as int, MaterialView { specular_exponent: Some(token_at(stoks, 1)), ..m }));
        return;
    }
    assert((&[75u8, 97u8, 32u8])@ =~= kw_ka());
    if starts_with(line, &[75u8, 97u8, 32u8]) {
        let i = *current;
        let value = Some(float3_tokens(&toks));
        let ghost m = st.materials[i as int];
        materials[i].ambient_color = value;
        assert(material_views(materials@) =~= st.materials.update(i as int, MaterialView { ambient_color: Some(float3_of(stoks)), ..m }));
        return;
    }
    assert((&[75u8, 100u8, 32u8])@ =~= kw_kd());
    if starts_with(line, &[75u8, 100u8, 32u8]) {
        let i = *current;
        let value = Some(float3_tokens(&toks));
        let ghost m = st.materials[i as int];
        materials[i].diffuse_color = value;
        assert(material_views(materials@) =~= st.materials.update(i as int, MaterialView { diffuse_color: Some(float3_of(stoks)), ..m }));
        return;
    }
    assert((&[75u8, 115u8, 32u8])@ =~= kw_ks());
    if starts_with(line, &[75u8, 115u8, 32u8]) {
        let i = *current;
        let value = Some(float3_tokens(&toks));
        let ghost m = st.materials[i as int];
        materials[i].specular_color = value;
        assert(material_views(materials@) =~= st.materials.update(i as int, MaterialView { specular_color: Some(float3_of(stoks)), ..m }));
        return;
    }
    assert((&[78u8, 105u8, 32u8])@ =~= kw_ni());
    if starts_with(line, &[78u8, 105u8, 32u8]) {
        let i = *current;
        let value = Some(token(&toks, 1));
        let ghost m = st.materials[i as int];
        materials[i].index_of_refraction = value;
        assert(material_views(materials@) =~= st.materials.update(i as int, MaterialView { index_of_refraction: Some(token_at(stoks, 1)), ..m }));
        return;
    }
    assert((&[100u8, 32u8])@ =~= kw_d());
    if starts_with(line, &[100u8, 32u8]) {
        let i = *current;
        let value = Some(token(&toks, 1));
        let ghost m = st.materials[i as int];
        materials[i].dissolve = value;
        assert(material_views(materials@) =~= st.materials.update(i as int, MaterialView { dissolve: Some(token_at(stoks, 1)), ..m }));
        return;
    }
    assert((&[105u8, 108u8, 108u8, 117u8, 109u8, 32u8])@ =~= kw_illum());
    if starts_with(line, &[105u8, 108u8, 108u8, 117u8, 109u8, 32u8]) {
        let i = *current;
        let value = int_token(&toks, 1);
        let ghost m = st.materials[i as int];
        materials[i].illumination_mode = value;
        assert(material_views(materials@) =~= st.materials.update(i as int, MaterialView { illumination_mode: int_of(token_at(stoks, 1)), ..m }));
        return;
    }
    assert((&[109u8, 97u8, 112u8, 95u8, 75u8, 100u8, 32u8])@ =~= kw_map_kd());
    if starts_with(line, &[109u8, 97u8, 112u8, 95u8, 75u8, 100u8, 32u8]) {
        if toks.len() >= 2 {
            let i = *current;
            let value = Some(copy_bytes(&toks[1]));
            let ghost m = st.materials[i as int];
            materials[i].diffuse_map = value;
            assert(material_views(materials@) =~= st.materials.update(i as int, MaterialView { diffuse_map: Some(stoks[1]), ..m }));
            return;
        }
        return;
    }
    assert((&[109u8, 97u8, 112u8, 95u8, 68u8, 105u8, 115u8, 112u8, 32u8])@ =~= kw_map_disp());
    if starts_with(line, &[109u8, 97u8, 112u8, 95u8, 68u8, 105u8, 115u8, 112u8, 32u8]) {
        if toks.len() >= 2 {
            let i = *current;
            let value = Some(copy_bytes(&toks[1]));
            let ghost m = st.materials[i as int];
            materials[i].displacement_map = value;
            assert(material_views(materials@) =~= st.materials.update(i as int, MaterialView { displacement_map: Some(stoks[1]), ..m }));
            return;
        }
        return;
    }
    assert((&[109u8, 97u8, 112u8, 95u8, 75u8, 97u8, 32u8])@ =~= kw_map_ka());
    if starts_with(line, &[109u8, 97u8, 112u8, 95u8, 75u8, 97u8, 32u8]) {
        if toks.len() >= 2 {
            let i = *current;
            let value = Some(copy_bytes(&toks[1]));
            let ghost m = st.materials[i as int];
            materials[i].ambient_map = value;
            assert(material_views(materials@) =~= st.materials.update(i as int, MaterialView { ambient_map: Some(stoks[1]), ..m }));
            return;
        }
        return;
    }
}


/// The views of a list of lines.
pub open spec fn line_views(lines: Seq<Vec<u8>>) -> Seq<Seq<u8>> {
    lines.map_values(|l: Vec<u8>| l@)
}

fn text_lines(text: &str) -> (r: Vec<Vec<u8>>)
    ensures
        line_views(r@) == lines_of(text.spec_bytes()),
{
    let bytes = text.as_bytes_vec();
    let lines = split_lines(&bytes);
    assert(line_views(lines@) =~= lines_of(text.spec_bytes()));
    lines
}

/// Reads the materials of an MTL file, given its text.
pub fn parse_obj_material_file(text: &str) -> (r: Vec<ObjMaterial>)
    requires
        mtl_text_ok(lines_of(text.spec_bytes())),
    ensures
        material_views(r@) == mtl_run(lines_of(text.spec_bytes())).materials,
{
    let lines = text_lines(text);
    let ghost all = lines_of(text.spec_bytes());
    let mut materials: Vec<ObjMaterial> = Vec::new();
    let mut current: usize = 0;
    let mut k: usize = 0;
    assert(reader_state(materials@, current) == mtl_run(all.take(0))) by {
        assert(all.take(0) =~= Seq::<Seq<u8>>::empty());
        assert(material_views(materials@) =~= Seq::<MaterialView>::empty());
    }
    while k < lines.len()
        invariant
            k <= lines@.len(),
            all == line_views(lines@),
            mtl_text_ok(all),
            reader_state(materials@, current) == mtl_run(all.take(k as int)),
            current == 0 || current < materials@.len(),
        decreases lines@.len() - k,
    {
        proof {
            assert(all.take(k as int + 1).drop_last() =~= all.take(k as int));
            assert(all[k as int] == lines@[k as int]@);
            assert(mtl_line_ok(mtl_run(all.take(k as int)), all[k as int]));
        }
        mtl_apply_line(&mut materials, &mut current, &lines[k]);
        k = k + 1;
    }
    assert(all.take(k as int) =~= all);
    materials
}


// ------------------------------------------------------------------------
// Geometry

/// The vertex of a face: the indices of its position, normal and texture
/// coordinate, counted from zero (negative ones count from the end), where
/// the face gives them.
#[derive(Debug, Clone, Copy, PartialEq, Eq, Structural)]
pub struct ObjFaceIdx {
    pub pos: Option<i32>,
    pub norm: Option<i32>,
    pub uv0: Option<i32>,
}

impl Default for ObjFaceIdx {
    fn default() -> (r: Self)
        ensures
            r == (ObjFaceIdx { pos: None, norm: None, uv0: None }),
    {
        ObjFaceIdx { pos: None, norm: None, uv0: None }
    }
}

/// A triangle.
#[derive(Debug, Clone, Copy, PartialEq, Eq, Structural)]
pub struct ObjFace {
    pub v0: ObjFaceIdx,
    pub v1: ObjFaceIdx,
    pub v2: ObjFaceIdx,
}

/// The index a part of a face vertex gives, counted from zero: the number it
/// spells (zero where it spells none) less one; `None` where the part is
/// absent or empty.
pub open spec fn face_part(parts: Seq<Seq<u8>>, i: int) -> Option<i32> {
    if 0 <= i < parts.len() && parts[i].len() > 0 {
        Some((int_of(parts[i]) - 1) as i32)
    } else {
        None
    }
}

/// A part can be read where its number is not the smallest `i32`.
pub open spec fn face_part_ok(parts: Seq<Seq<u8>>, i: int) -> bool {
    0 <= i < parts.len() && parts[i].len() > 0 ==> int_of(parts[i]) != i32::MIN
}

/// A face vertex `pos/uv/normal`, any part of which may be empty or
/// absent.
pub open spec fn face_idx_of(tok: Seq<u8>) -> ObjFaceIdx {
    let parts = split_on(tok, 47u8);
    ObjFaceIdx { pos: face_part(parts, 0), uv0: face_part(parts, 1), norm: face_part(parts, 2) }
}

pub open spec fn face_tok_ok(tok: Seq<u8>) -> bool {
    let parts = split_on(tok, 47u8);
    face_part_ok(parts, 0) && face_part_ok(parts, 1) && face_part_ok(parts, 2)
}

fn face_part_of(parts: &Vec<Vec<u8>>, i: usize) -> (r: Option<i32>)
    requires
        face_part_ok(parts@.map_values(|t: Vec<u8>| t@), i as int),
    ensures
        r == face_part(parts@.map_values(|t: Vec<u8>| t@), i as int),
{
    if i < parts.len() && parts[i].len() > 0 {
        let v = match parse_i32(&parts[i]) {
            Some(v) => v,
            None => 0,
        };
        Some(v - 1)
    } else {
        None
    }
}

/// Reads a face vertex `pos/uv/normal`.
pub fn parse_obj_face_idx(tok: &Vec<u8>) -> (r: ObjFaceIdx)
    requires
        face_tok_ok(tok@),
    ensures
        r == face_idx_of(tok@),
{
    let parts = split_bytes(tok, 47u8);
    assert(parts@.map_values(|t: Vec<u8>| t@) =~= split_on(tok@, 47u8));
    let pos = face_part_of(&parts, 0);
    let uv0 = face_part_of(&parts, 1);
    let norm = face_part_of(&parts, 2);
    ObjFaceIdx { pos, norm, uv0 }
}

/// What an object of an OBJ file says: its name, its triangles and the
/// index of its material.
pub ghost struct GeometryView {
    pub name: Seq<u8>,
    pub faces: Seq<ObjFace>,
    pub material_index: Option<usize>,
}

/// An object of an OBJ file.
pub struct ObjGeometry {
    pub name: Vec<u8>,
    pub faces: Vec<ObjFace>,
    pub material_index: Option<usize>,
}

impl View for ObjGeometry {
    type V = GeometryView;

    open spec fn view(&self) -> GeometryView {
        GeometryView { name: self.name@, faces: self.faces@, material_index: self.material_index }
    }
}

/// Everything read from an OBJ file, and the object lines apply to.
pub ghost struct ObjState {
    pub positions: Seq<(Seq<u8>, Seq<u8>, Seq<u8>)>,
    pub normals: Seq<(Seq<u8>, Seq<u8>, Seq<u8>)>,
    pub tex_coords: Seq<(Seq<u8>, Seq<u8>)>,
    pub geoms: Seq<GeometryView>,
    pub materials: Seq<MaterialView>,
    pub geom_idx: int,
}

/// The index of the first material with the given name.
pub open spec fn material_named(ms: Seq<MaterialView>, name: Seq<u8>) -> Option<usize>
    decreases ms.len(),
{
    if ms.len() == 0 {
        None
    } else {
        match material_named(ms.drop_last(), name) {
            Some(i) => Some(i),
            None => if ms.last().name == name {
                Some((ms.len() - 1) as usize)
            } else {
                None
            },
        }
    }
}

/// A line can be read where a face has three vertices that can be read and
/// an object to go to, an `mtllib` line names a file, and a `usemtl` line
/// has an object to go to.
pub open spec fn obj_line_ok(st: ObjState, line: Seq<u8>) -> bool {
    let toks = split_on(line, 32u8);
    if has_prefix(line, kw_hash()) || has_prefix(line, kw_o()) || has_prefix(line, kw_vt()) || has_prefix(
        line,
        kw_vn(),
    ) || has_prefix(line, kw_v()) || has_prefix(line, kw_s()) {
        true
    } else if has_prefix(line, kw_f()) {
        &&& toks.len() == 4
        &&& 0 <= st.geom_idx < st.geoms.len()
        &&& face_tok_ok(toks[1])
        &&& face_tok_ok(toks[2])
        &&& face_tok_ok(toks[3])
    } else if has_prefix(line, kw_mtllib()) {
        toks.len() >= 2
    } else if has_prefix(line, kw_usemtl()) {
        0 <= st.geom_idx < st.geoms.len()
    } else {
        true
    }
}

/// The current object with one change.
pub open spec fn with_geometry(st: ObjState, g: GeometryView) -> ObjState {
    ObjState { geoms: st.geoms.update(st.geom_idx, g), ..st }
}

/// What one line of an OBJ file does, and the material file it names, if it
/// is an `mtllib` line: a comment does nothing; a line starting with `o`
/// and having a name starts an object; `vt`, `vn` and `v` add a texture
/// coordinate, a normal, a position; a line starting with `f` adds a
/// triangle to the current object; `usemtl` sets the current object's
/// material to the first one of that name; other lines do nothing.
pub open spec fn obj_step(st: ObjState, line: Seq<u8>) -> (ObjState, Option<Seq<u8>>) {
    let toks = split_on(line, 32u8);
    let g = st.geoms[st.geom_idx];
    if has_prefix(line, kw_hash()) {
        (st, None)
    } else if has_prefix(line, kw_o()) {
        if toks.len() >= 2 {
            (
                ObjState {
                    geoms: st.geoms.push(GeometryView { name: toks[1], faces: Seq::empty(), material_index: None }),
                    geom_idx: st.geoms.len() as int,
                    ..st
                },
                None,
            )
        } else {
            (st, None)
        }
    } else if has_prefix(line, kw_vt()) {
        (ObjState { tex_coords: st.tex_coords.push(float2_of(toks)), ..st }, None)
    } else if has_prefix(line, kw_vn()) {
        (ObjState { normals: st.normals.push(float3_of(toks)), ..st }, None)
    } else if has_prefix(line, kw_v()) {
        (ObjState { positions: st.positions.push(float3_of(toks)), ..st }, None)
    } else if has_prefix(line, kw_s()) {
        (st, None)
    } else if has_prefix(line, kw_f()) {
        let face = ObjFace { v0: face_idx_of(toks[1]), v1: face_idx_of(toks[2]), v2: face_idx_of(toks[3]) };
        (with_geometry(st, GeometryView { faces: g.faces.push(face), ..g }), None)
    } else if has_prefix(line, kw_mtllib()) {
        (st, Some(toks[1]))
    } else if has_prefix(line, kw_usemtl()) {
        let index = if toks.len() >= 2 { material_named(st.materials, toks[1]) } else { None };
        (with_geometry(st, GeometryView { material_index: index, ..g }), None)
    } else {
        (st, None)
    }
}

/// The model read from an OBJ file: its positions, normals and texture
/// coordinates as written, its objects and its materials.
pub struct ObjModel {
    pub positions: Vec<Float3Text>,
    pub normals: Vec<Float3Text>,
    pub tex_coords: Vec<Float2Text>,
    pub geoms: Vec<ObjGeometry>,
    pub materials: Vec<ObjMaterial>,
}

pub open spec fn float3_views(v: Seq<Float3Text>) -> Seq<(Seq<u8>, Seq<u8>, Seq<u8>)> {
    v.map_values(|t: Float3Text| t@)
}

pub open spec fn float2_views(v: Seq<Float2Text>) -> Seq<(Seq<u8>, Seq<u8>)> {
    v.map_values(|t: Float2Text| t@)
}

pub open spec fn geometry_views(v: Seq<ObjGeometry>) -> Seq<GeometryView> {
    v.map_values(|g: ObjGeometry| g@)
}

/// A reader of an OBJ file, line by line.
pub struct ObjParser {
    pub model: ObjModel,
    pub geom_idx: usize,
}

impl View for ObjParser {
    type V = ObjState;

    open spec fn view(&self) -> ObjState {
        ObjState {
            positions: float3_views(self.model.positions@),
            normals: float3_views(self.model.normals@),
            tex_coords: float2_views(self.model.tex_coords@),
            geoms: geometry_views(self.model.geoms@),
            materials: material_views(self.model.materials@),
            geom_idx: self.geom_idx as int,
        }
    }
}

/// The state of a reader that has read nothing.
pub open spec fn obj_start() -> ObjState {
    ObjState {
        positions: Seq::empty(),
        normals: Seq::empty(),
        tex_coords: Seq::empty(),
        geoms: Seq::empty(),
        materials: Seq::empty(),
        geom_idx: 0,
    }
}

impl ObjParser {
    /// The current object index is zero or names an object.
    pub open spec fn wf(&self) -> bool {
        self.geom_idx == 0 || self.geom_idx < self.model.geoms@.len()
    }

    /// A reader that has read nothing.
    pub fn new() -> (r: Self)
        ensures
            r@ == obj_start(),
            r.wf(),
    {
        let r = ObjParser {
            model: ObjModel {
                positions: Vec::new(),
                normals: Vec::new(),
                tex_coords: Vec::new(),
                geoms: Vec::new(),
                materials: Vec::new(),
            },
            geom_idx: 0,
        };
        assert(float3_views(r.model.positions@) =~= Seq::empty());
        assert(float3_views(r.model.normals@) =~= Seq::empty());
        assert(float2_views(r.model.tex_coords@) =~= Seq::empty());
        assert(geometry_views(r.model.geoms@) =~= Seq::empty());
        assert(material_views(r.model.materials@) =~= Seq::empty());
        r
    }

    /// Replaces the materials with those of the file an `mtllib` line
    /// named.
    pub fn set_materials(&mut self, materials: Vec<ObjMaterial>)
        requires
            old(self).wf(),
        ensures
            final(self).wf(),
            final(self)@ == (ObjState { materials: material_views(materials@), ..old(self)@ }),
    {
        self.model.materials = materials;
    }

    /// The model read so far.
    pub fn into_model(self) -> (r: ObjModel)
        ensures
            float3_views(r.positions@) == self@.positions,
            float3_views(r.normals@) == self@.normals,
            float2_views(r.tex_coords@) == self@.tex_coords,
            geometry_views(r.geoms@) == self@.geoms,
            material_views(r.materials@) == self@.materials,
    {
        self.model
    }

    /// Reads one line of an OBJ file; returns the name of the material file
    /// an `mtllib` line names, whose materials the caller then hands to
    /// `set_materials`.
    pub fn parse_obj_line(&mut self, line: &Vec<u8>) -> (r: Option<Vec<u8>>)
        requires
            old(self).wf(),
            obj_line_ok(old(self)@, line@),
        ensures
            final(self).wf(),
            final(self)@ == obj_step(old(self)@, line@).0,
            opt_view(r) == obj_step(old(self)@, line@).1,
    {
        let ghost st = self@;
        let toks = tokens_of(line);
        let ghost stoks = split_on(line@, 32u8);
        assert(toks@.map_values(|t: Vec<u8>| t@) == stoks);
        assert((&[35u8])@ =~= kw_hash());
        assert((&[111u8])@ =~= kw_o());
        assert((&[118u8, 116u8, 32u8])@ =~= kw_vt());
        assert((&[118u8, 110u8, 32u8])@ =~= kw_vn());
        assert((&[118u8, 32u8])@ =~= kw_v());
        assert((&[115u8, 32u8])@ =~= kw_s());
        assert((&[102u8])@ =~= kw_f());
        assert((&[109u8, 116u8, 108u8, 108u8, 105u8, 98u8, 32u8])@ =~= kw_mtllib());
        assert((&[117u8, 115u8, 101u8, 109u8, 116u8, 108u8, 32u8])@ =~= kw_usemtl());
        if starts_with(line, &[35u8]) {
            return None;
        }
        if starts_with(line, &[111u8]) {
            if toks.len() >= 2 {
                let name = copy_bytes(&toks[1]);
                self.geom_idx = self.model.geoms.len();
                self.model.geoms.push(ObjGeometry { name, faces: Vec::new(), material_index: None });
                assert(geometry_views(self.model.geoms@) =~= st.geoms.push(
                    GeometryView { name: stoks[1], faces: Seq::empty(), material_index: None },
                ));
            }
            return None;
        }
        if starts_with(line, &[118u8, 116u8, 32u8]) {
            self.model.tex_coords.push(float2_tokens(&toks));
            assert(float2_views(self.model.tex_coords@) =~= st.tex_coords.push(float2_of(stoks)));
            return None;
        }
        if starts_with(line, &[118u8, 110u8, 32u8]) {
            self.model.normals.push(float3_tokens(&toks));
            assert(float3_views(self.model.normals@) =~= st.normals.push(float3_of(stoks)));
            return None;
        }
        if starts_with(line, &[118u8, 32u8]) {
            self.model.positions.push(float3_tokens(&toks));
            assert(float3_views(self.model.positions@) =~= st.positions.push(float3_of(stoks)));
            return None;
        }
        if starts_with(line, &[115u8, 32u8]) {
            return None;
        }
        if starts_with(line, &[102u8]) {
            let v0 = parse_obj_face_idx(&toks[1]);
            let v1 = parse_obj_face_idx(&toks[2]);
            let v2 = parse_obj_face_idx(&toks[3]);
            let gi = self.geom_idx;
            let ghost g = st.geoms[gi as int];
            self.model.geoms[gi].faces.push(ObjFace { v0, v1, v2 });
            assert(geometry_views(self.model.geoms@) =~= st.geoms.update(
                gi as int,
                GeometryView { faces: g.faces.push(ObjFace { v0, v1, v2 }), ..g },
            ));
            return None;
        }
        if starts_with(line, &[109u8, 116u8, 108u8, 108u8, 105u8, 98u8, 32u8]) {
            return Some(copy_bytes(&toks[1]));
        }
        if starts_with(line, &[117u8, 115u8, 101u8, 109u8, 116u8, 108u8, 32u8]) {
            let index = if toks.len() >= 2 {
                self.find_material(&toks[1])
            } else {
                None
            };
            let gi = self.geom_idx;
            let ghost g = st.geoms[gi as int];
            self.model.geoms[gi].material_index = index;
            assert(geometry_views(self.model.geoms@) =~= st.geoms.update(
                gi as int,
                GeometryView { material_index: index, ..g },
            ));
            return None;
        }
        None
    }

    fn find_material(&self, name: &Vec<u8>) -> (r: Option<usize>)
        ensures
            r == material_named(self@.materials, name@),
    {
        let ms = &self.model.materials;
        let ghost views = material_views(ms@);
        let mut i: usize = 0;
        while i < ms.len()
            invariant
                i <= ms@.len(),
                views == material_views(ms@),
                views == self@.materials,
                material_named(views.take(i as int), name@) is None,
            decreases ms@.len() - i,
        {
            proof {
                assert(views.take(i as int + 1).drop_last() =~= views.take(i as int));
            }
            if bytes_equal(&ms[i].name, name) {
                assert(material_named(views.take(i as int + 1), name@) == Some(i));
                proof {
                    lemma_material_named_prefix(views, name@, i as int + 1);
                }
                return Some(i);
            }
            i = i + 1;
        }
        assert(views.take(i as int) =~= views);
        None
    }
}

/// Once a prefix has a material of the name, so has the whole list, at the
/// same place.
pub proof fn lemma_material_named_prefix(ms: Seq<MaterialView>, name: Seq<u8>, k: int)
    requires
        0 <= k <= ms.len(),
        material_named(ms.take(k), name) is Some,
    ensures
        material_named(ms, name) == material_named(ms.take(k), name),
    decreases ms.len() - k,
{
    if k < ms.len() {
        assert(ms.take(k + 1).drop_last() =~= ms.take(k));
        lemma_material_named_prefix(ms, name, k + 1);
    } else {
        assert(ms.take(k) =~= ms);
    }
}

fn bytes_equal(a: &Vec<u8>, b: &Vec<u8>) -> (r: bool)
    ensures
        r == (a@ == b@),
{
    if a.len() != b.len() {
        return false;
    }
    let mut i: usize = 0;
    while i < a.len()
        invariant
            a@.len() == b@.len(),
            i <= a@.len(),
            forall|k: int| 0 <= k < i ==> a@[k] == b@[k],
        decreases a@.len() - i,
    {
        if a[i] != b[i] {
            return false;
        }
        i = i + 1;
    }
    assert(a@ =~= b@);
    true
}


/// The lines of an OBJ or MTL file, given its text.
pub fn file_lines(text: &str) -> (r: Vec<Vec<u8>>)
    ensures
        line_views(r@) == lines_of(text.spec_bytes()),
{
    text_lines(text)
}

impl ObjParser {
    /// Whether a line can be read next; a line that cannot is malformed.
    pub fn can_parse_line(&self, line: &Vec<u8>) -> (r: bool)
        ensures
            r == obj_line_ok(self@, line@),
    {
        let toks = tokens_of(line);
        let ghost stoks = split_on(line@, 32u8);
        assert(toks@.map_values(|t: Vec<u8>| t@) == stoks);
        assert((&[35u8])@ =~= kw_hash());
        assert((&[111u8])@ =~= kw_o());
        assert((&[118u8, 116u8, 32u8])@ =~= kw_vt());
        assert((&[118u8, 110u8, 32u8])@ =~= kw_vn());
        assert((&[118u8, 32u8])@ =~= kw_v());
        assert((&[115u8, 32u8])@ =~= kw_s());
        assert((&[102u8])@ =~= kw_f());
        assert((&[109u8, 116u8, 108u8, 108u8, 105u8, 98u8, 32u8])@ =~= kw_mtllib());
        assert((&[117u8, 115u8, 101u8, 109u8, 116u8, 108u8, 32u8])@ =~= kw_usemtl());
        if starts_with(line, &[35u8]) || starts_with(line, &[111u8]) || starts_with(line, &[118u8, 116u8, 32u8])
            || starts_with(line, &[118u8, 110u8, 32u8]) || starts_with(line, &[118u8, 32u8]) || starts_with(
            line,
            &[115u8, 32u8],
        ) {
            true
        } else if starts_with(line, &[102u8]) {
            let has_object = self.geom_idx < self.model.geoms.len();
            toks.len() == 4 && has_object && face_tok_readable(&toks[1]) && face_tok_readable(&toks[2])
                && face_tok_readable(&toks[3])
        } else if starts_with(line, &[109u8, 116u8, 108u8, 108u8, 105u8, 98u8, 32u8]) {
            toks.len() >= 2
        } else if starts_with(line, &[117u8, 115u8, 101u8, 109u8, 116u8, 108u8, 32u8]) {
            self.geom_idx < self.model.geoms.len()
        } else {
            true
        }
    }
}

fn face_part_readable(parts: &Vec<Vec<u8>>, i: usize) -> (r: bool)
    ensures
        r == face_part_ok(parts@.map_values(|t: Vec<u8>| t@), i as int),
{
    if i < parts.len() && parts[i].len() > 0 {
        match parse_i32(&parts[i]) {
            Some(v) => v != i32::MIN,
            None => true,
        }
    } else {
        true
    }
}

/// Whether a face vertex can be read.
fn face_tok_readable(tok: &Vec<u8>) -> (r: bool)
    ensures
        r == face_tok_ok(tok@),
{
    let parts = split_bytes(tok, 47u8);
    assert(parts@.map_values(|t: Vec<u8>| t@) =~= split_on(tok@, 47u8));
    face_part_readable(&parts, 0) && face_part_readable(&parts, 1) && face_part_readable(&parts, 2)
}

/// Whether every line of an MTL file can be read after the ones before it.
pub fn material_file_readable(text: &str) -> (r: bool)
    ensures
        r == mtl_text_ok(lines_of(text.spec_bytes())),
{
    let lines = text_lines(text);
    let ghost all = lines_of(text.spec_bytes());
    let mut materials: Vec<ObjMaterial> = Vec::new();
    let mut current: usize = 0;
    let mut k: usize = 0;
    assert(reader_state(materials@, current) == mtl_run(all.take(0))) by {
        assert(all.take(0) =~= Seq::<Seq<u8>>::empty());
        assert(material_views(materials@) =~= Seq::<MaterialView>::empty());
    }
    while k < lines.len()
        invariant
            k <= lines@.len(),
            all == line_views(lines@),
            reader_state(materials@, current) == mtl_run(all.take(k as int)),
            current == 0 || current < materials@.len(),
            all == lines_of(text.spec_bytes()),
            forall|j: int| 0 <= j < k ==> #[trigger] mtl_line_ok(mtl_run(all.take(j)), all[j]),
        decreases lines@.len() - k,
    {
        proof {
            assert(all.take(k as int + 1).drop_last() =~= all.take(k as int));
            assert(all[k as int] == lines@[k as int]@);
        }
        if !mtl_line_readable(&materials, current, &lines[k]) {
            assert(!mtl_line_ok(mtl_run(all.take(k as int)), all[k as int]));
            return false;
        }
        mtl_apply_line(&mut materials, &mut current, &lines[k]);
        k = k + 1;
    }
    assert(all.take(k as int) =~= all);
    true
}

fn mtl_line_readable(materials: &Vec<ObjMaterial>, current: usize, line: &Vec<u8>) -> (r: bool)
    ensures
        r == mtl_line_ok(reader_state(materials@, current), line@),
{
    let toks = tokens_of(line);
    let ghost stoks = split_on(line@, 32u8);
    assert(toks@.map_values(|t: Vec<u8>| t@) == stoks);
    assert((&[35u8])@ =~= kw_hash());
    assert((&[110u8, 101u8, 119u8, 109u8, 116u8, 108u8, 32u8])@ =~= kw_newmtl());
    assert((&[78u8, 115u8, 32u8])@ =~= kw_ns());
    assert((&[75u8, 97u8, 32u8])@ =~= kw_ka());
    assert((&[75u8, 100u8, 32u8])@ =~= kw_kd());
    assert((&[75u8, 115u8, 32u8])@ =~= kw_ks());
    assert((&[78u8, 105u8, 32u8])@ =~= kw_ni());
    assert((&[100u8, 32u8])@ =~= kw_d());
    assert((&[105u8, 108u8, 108u8, 117u8, 109u8, 32u8])@ =~= kw_illum());
    assert((&[109u8, 97u8, 112u8, 95u8, 75u8, 100u8, 32u8])@ =~= kw_map_kd());
    assert((&[109u8, 97u8, 112u8, 95u8, 68u8, 105u8, 115u8, 112u8, 32u8])@ =~= kw_map_disp());
    assert((&[109u8, 97u8, 112u8, 95u8, 75u8, 97u8, 32u8])@ =~= kw_map_ka());
    if starts_with(line, &[35u8]) || starts_with(line, &[110u8, 101u8, 119u8, 109u8, 116u8, 108u8, 32u8]) {
        return true;
    }
    let property = starts_with(line, &[78u8, 115u8, 32u8]) || starts_with(line, &[75u8, 97u8, 32u8]) || starts_with(
        line,
        &[75u8, 100u8, 32u8],
    ) || starts_with(line, &[75u8, 115u8, 32u8]) || starts_with(line, &[78u8, 105u8, 32u8]) || starts_with(
        line,
        &[100u8, 32u8],
    ) || starts_with(line, &[105u8, 108u8, 108u8, 117u8, 109u8, 32u8]);
    let map = starts_with(line, &[109u8, 97u8, 112u8, 95u8, 75u8, 100u8, 32u8]) || starts_with(
        line,
        &[109u8, 97u8, 112u8, 95u8, 68u8, 105u8, 115u8, 112u8, 32u8],
    ) || starts_with(line, &[109u8, 97u8, 112u8, 95u8, 75u8, 97u8, 32u8]);
    !(property || (map && toks.len() >= 2)) || current < materials.len()
}

// ------------------------------------------------------------------------
// Conversion to triangle lists

/// Where the attributes of a vertex come from: indices into the model's
/// positions, texture coordinates and normals; `None` where the vertex has
/// none (it is then zero).
#[derive(Debug, Clone, Copy, PartialEq, Eq, Structural)]
pub struct VertexRef {
    pub position: Option<usize>,
    pub tex_coord: Option<usize>,
    pub normal: Option<usize>,
}

/// The element an OBJ index names in a list of `len`: counted from the
/// start, or from the end where negative; `None` where there is no index
/// or it falls outside the list.
pub open spec fn resolved_index(idx: Option<i32>, len: nat) -> Option<usize> {
    match idx {
        None => None,
        Some(i) => {
            let v: int = if i < 0 { len + i } else { i as int };
            if len > 0 && 0 <= v < len { Some(v as usize) } else { None }
        },
    }
}

/// A negative index can be counted back from the end of a list of `len`.
pub open spec fn index_resolvable(idx: Option<i32>, len: nat) -> bool {
    idx matches Some(i) && i < 0 && len > 0 ==> len <= i32::MAX
}

/// The element an OBJ index names in a list of `len`.
pub fn resolve_obj_index(idx: Option<i32>, len: usize) -> (r: Option<usize>)
    requires
        index_resolvable(idx, len as nat),
    ensures
        r == resolved_index(idx, len as nat),
{
    match idx {
        None => None,
        Some(i) => {
            if len == 0 {
                return None;
            }
            if i < 0 {
                let v: i32 = len as i32 + i;
                if v >= 0 && (v as usize) < len {
                    Some(v as usize)
                } else {
                    None
                }
            } else {
                let v = i as usize;
                if v < len {
                    Some(v)
                } else {
                    None
                }
            }
        },
    }
}

/// The vertex a face vertex makes in a model with these list lengths.
pub open spec fn vertex_ref_of(face: ObjFaceIdx, positions: nat, tex_coords: nat, normals: nat) -> VertexRef {
    VertexRef {
        position: resolved_index(face.pos, positions),
        tex_coord: resolved_index(face.uv0, tex_coords),
        normal: resolved_index(face.norm, normals),
    }
}

pub open spec fn face_vertex_resolvable(face: ObjFaceIdx, positions: nat, tex_coords: nat, normals: nat) -> bool {
    index_resolvable(face.pos, positions) && index_resolvable(face.uv0, tex_coords) && index_resolvable(
        face.norm,
        normals,
    )
}

/// Where the attributes of a face vertex come from in the model.
pub fn make_vertex_from_face(model: &ObjModel, face: ObjFaceIdx) -> (r: VertexRef)
    requires
        face_vertex_resolvable(
            face,
            model.positions@.len(),
            model.tex_coords@.len(),
            model.normals@.len(),
        ),
    ensures
        r == vertex_ref_of(face, model.positions@.len(), model.tex_coords@.len(), model.normals@.len()),
{
    VertexRef {
        position: resolve_obj_index(face.pos, model.positions.len()),
        tex_coord: resolve_obj_index(face.uv0, model.tex_coords.len()),
        normal: resolve_obj_index(face.norm, model.normals.len()),
    }
}


/// The `j`-th vertex of a triangle.
pub open spec fn face_vertex(f: ObjFace, j: int) -> ObjFaceIdx {
    if j == 0 {
        f.v0
    } else if j == 1 {
        f.v1
    } else {
        f.v2
    }
}

/// The vertices of a list of triangles, three per triangle in order.
pub open spec fn triangle_vertices(faces: Seq<ObjFace>, positions: nat, tex_coords: nat, normals: nat) -> Seq<VertexRef> {
    Seq::new(
        3 * faces.len(),
        |i: int| vertex_ref_of(face_vertex(faces[i / 3], i % 3), positions, tex_coords, normals),
    )
}

/// A triangle list whose vertices can be made: every negative index can be
/// counted back, and the indices fit in 32 bits.
pub open spec fn geometry_convertible(g: ObjGeometry, positions: nat, tex_coords: nat, normals: nat) -> bool {
    &&& 3 * g.faces@.len() <= u32::MAX
    &&& forall|k: int, j: int|
        0 <= k < g.faces@.len() && 0 <= j < 3 ==> #[trigger] face_vertex_resolvable(
            face_vertex(g.faces@[k], j),
            positions,
            tex_coords,
            normals,
        )
}

/// A model can be converted where it has a position whenever it has an
/// object, and each object can be converted.
pub open spec fn model_convertible(model: ObjModel) -> bool {
    &&& model.geoms@.len() > 0 ==> model.positions@.len() > 0
    &&& forall|g: int|
        0 <= g < model.geoms@.len() ==> #[trigger] geometry_convertible(
            model.geoms@[g],
            model.positions@.len(),
            model.tex_coords@.len(),
            model.normals@.len(),
        )
}

/// An object as a triangle list: a vertex per corner of each triangle, the
/// indices of the vertices in order, and the object's material.
pub struct ImportGeometry {
    pub vertices: Vec<VertexRef>,
    pub indices: Vec<u32>,
    pub material_index: Option<usize>,
}

/// What an imported material keeps of an MTL material: its ambient color as
/// written and its ambient map's name.
pub struct ImportMaterial {
    pub ambient_color: Option<Float3Text>,
    pub ambient_map: Option<Vec<u8>>,
}

/// An imported mesh: its triangle lists and its materials.
pub struct ImportMesh {
    pub geoms: Vec<ImportGeometry>,
    pub materials: Vec<ImportMaterial>,
}

/// Turns the objects of a model into triangle lists, three vertices per
/// triangle, and keeps the ambient color and map of each material.
pub fn convert_obj_file(model: &ObjModel) -> (r: ImportMesh)
    requires
        model_convertible(*model),
    ensures
        r.materials@.len() == model.materials@.len(),
        forall|m: int|
            0 <= m < r.materials@.len() ==> opt_view3((#[trigger] r.materials@[m]).ambient_color) == opt_view3(
                model.materials@[m].ambient_color,
            ) && opt_view(r.materials@[m].ambient_map) == opt_view(model.materials@[m].ambient_map),
        r.geoms@.len() == model.geoms@.len(),
        forall|g: int|
            0 <= g < r.geoms@.len() ==> {
                let src = model.geoms@[g];
                let out = #[trigger] r.geoms@[g];
                &&& out.vertices@ == triangle_vertices(
                    src.faces@,
                    model.positions@.len(),
                    model.tex_coords@.len(),
                    model.normals@.len(),
                )
                &&& out.indices@.len() == 3 * src.faces@.len()
                &&& forall|i: int| 0 <= i < out.indices@.len() ==> #[trigger] out.indices@[i] == i
                &&& out.material_index == src.material_index
            },
{
    let mut materials: Vec<ImportMaterial> = Vec::new();
    let mut m: usize = 0;
    while m < model.materials.len()
        invariant
            m <= model.materials@.len(),
            materials@.len() == m,
            forall|k: int|
                0 <= k < m ==> opt_view3((#[trigger] materials@[k]).ambient_color) == opt_view3(
                    model.materials@[k].ambient_color,
                ) && opt_view(materials@[k].ambient_map) == opt_view(model.materials@[k].ambient_map),
        decreases model.materials@.len() - m,
    {
        let mat = &model.materials[m];
        let ambient_color = match &mat.ambient_color {
            Some(c) => Some(Float3Text { x: copy_bytes(&c.x), y: copy_bytes(&c.y), z: copy_bytes(&c.z) }),
            None => None,
        };
        let ambient_map = match &mat.ambient_map {
            Some(name) => Some(copy_bytes(name)),
            None => None,
        };
        materials.push(ImportMaterial { ambient_color, ambient_map });
        m = m + 1;
    }
    let mut geoms: Vec<ImportGeometry> = Vec::new();
    let mut g: usize = 0;
    while g < model.geoms.len()
        invariant
            g <= model.geoms@.len(),
            model_convertible(*model),
            geoms@.len() == g,
            forall|k: int|
                0 <= k < g ==> {
                    let src = model.geoms@[k];
                    let out = #[trigger] geoms@[k];
                    &&& out.vertices@ == triangle_vertices(
                        src.faces@,
                        model.positions@.len(),
                        model.tex_coords@.len(),
                        model.normals@.len(),
                    )
                    &&& out.indices@.len() == 3 * src.faces@.len()
                    &&& forall|i: int| 0 <= i < out.indices@.len() ==> #[trigger] out.indices@[i] == i
                    &&& out.material_index == src.material_index
                },
        decreases model.geoms@.len() - g,
    {
        let obj = &model.geoms[g];
        assert(geometry_convertible(*obj, model.positions@.len(), model.tex_coords@.len(), model.normals@.len()));
        let geom = convert_geometry(model, obj);
        geoms.push(geom);
        g = g + 1;
    }
    ImportMesh { geoms, materials }
}

fn convert_geometry(model: &ObjModel, obj: &ObjGeometry) -> (r: ImportGeometry)
    requires
        geometry_convertible(*obj, model.positions@.len(), model.tex_coords@.len(), model.normals@.len()),
    ensures
        r.vertices@ == triangle_vertices(
            obj.faces@,
            model.positions@.len(),
            model.tex_coords@.len(),
            model.normals@.len(),
        ),
        r.indices@.len() == 3 * obj.faces@.len(),
        forall|i: int| 0 <= i < r.indices@.len() ==> #[trigger] r.indices@[i] == i,
        r.material_index == obj.material_index,
{
    let ghost np = model.positions@.len();
    let ghost nt = model.tex_coords@.len();
    let ghost nn = model.normals@.len();
    let mut vertices: Vec<VertexRef> = Vec::new();
    let mut indices: Vec<u32> = Vec::new();
    let mut index_count: u32 = 0;
    let mut k: usize = 0;
    while k < obj.faces.len()
        invariant
            k <= obj.faces@.len(),
            geometry_convertible(*obj, np, nt, nn),
            np == model.positions@.len(),
            nt == model.tex_coords@.len(),
            nn == model.normals@.len(),
            index_count == 3 * k,
            vertices@.len() == 3 * k,
            indices@.len() == 3 * k,
            forall|i: int| 0 <= i < 3 * k ==> #[trigger] vertices@[i] == vertex_ref_of(
                face_vertex(obj.faces@[i / 3], i % 3),
                np,
                nt,
                nn,
            ),
            forall|i: int| 0 <= i < 3 * k ==> #[trigger] indices@[i] == i,
        decreases obj.faces@.len() - k,
    {
        let face = obj.faces[k];
        assert(face_vertex_resolvable(face_vertex(obj.faces@[k as int], 0), np, nt, nn));
        assert(face_vertex_resolvable(face_vertex(obj.faces@[k as int], 1), np, nt, nn));
        assert(face_vertex_resolvable(face_vertex(obj.faces@[k as int], 2), np, nt, nn));
        let v0 = make_vertex_from_face(model, face.v0);
        let v1 = make_vertex_from_face(model, face.v1);
        let v2 = make_vertex_from_face(model, face.v2);
        vertices.push(v0);
        vertices.push(v1);
        vertices.push(v2);
        indices.push(index_count);
        indices.push(index_count + 1);
        indices.push(index_count + 2);
        proof {
            assert forall|i: int| 0 <= i < 3 * (k + 1) implies #[trigger] vertices@[i] == vertex_ref_of(
                face_vertex(obj.faces@[i / 3], i % 3),
                np,
                nt,
                nn,
            ) by {
                if i >= 3 * k {
                    assert(i / 3 == k as int);
                }
            }
        }
        index_count = index_count + 3;
        k = k + 1;
    }
    assert(vertices@ =~= triangle_vertices(obj.faces@, np, nt, nn));
    ImportGeometry { vertices, indices, material_index: obj.material_index }
}


/// Whether a token holds no space.
pub open spec fn no_space(t: Seq<u8>) -> bool {
    forall|i: int| 0 <= i < t.len() ==> t[i] != 32u8
}

/// A keyword and three tokens, each without a space, joined by single
/// spaces, split into those four tokens.
proof fn lemma_split_three_after(kw: Seq<u8>, x: Seq<u8>, y: Seq<u8>, z: Seq<u8>)
    requires
        no_space(kw),
        no_space(x),
        no_space(y),
        no_space(z),
    ensures
        split_on(kw + seq![32u8] + x + seq![32u8] + y + seq![32u8] + z, 32u8) == seq![kw, x, y, z],
{
    let a = kw + seq![32u8] + x;
    let b = a + seq![32u8] + y;
    lemma_split_on_single(kw, 32u8);
    lemma_split_on_append_piece(kw, x, 32u8);
    lemma_split_on_append_piece(a, y, 32u8);
    lemma_split_on_append_piece(b, z, 32u8);
    assert(split_on(b + seq![32u8] + z, 32u8) =~= seq![kw, x, y, z]);
}

/// A keyword and two tokens, each without a space, joined by single spaces,
/// split into those three tokens.
proof fn lemma_split_two_after(kw: Seq<u8>, x: Seq<u8>, y: Seq<u8>)
    requires
        no_space(kw),
        no_space(x),
        no_space(y),
    ensures
        split_on(kw + seq![32u8] + x + seq![32u8] + y, 32u8) == seq![kw, x, y],
{
    let a = kw + seq![32u8] + x;
    lemma_split_on_single(kw, 32u8);
    lemma_split_on_append_piece(kw, x, 32u8);
    lemma_split_on_append_piece(a, y, 32u8);
    assert(split_on(a + seq![32u8] + y, 32u8) =~= seq![kw, x, y]);
}

/// Reading a line `v x y z`, whose three number tokens hold no space, adds
/// the position `(x, y, z)`: x is the first token after the keyword, y the
/// second, z the third. Nothing else changes and no file is named.
pub proof fn lemma_vertex_line_adds_position(st: ObjState, x: Seq<u8>, y: Seq<u8>, z: Seq<u8>)
    requires
        no_space(x),
        no_space(y),
        no_space(z),
    ensures
        obj_step(st, seq![118u8] + seq![32u8] + x + seq![32u8] + y + seq![32u8] + z) == (
            ObjState { positions: st.positions.push((x, y, z)), ..st },
            None::<Seq<u8>>,
        ),
{
    let line = seq![118u8] + seq![32u8] + x + seq![32u8] + y + seq![32u8] + z;
    lemma_split_three_after(seq![118u8], x, y, z);
    assert(line[0] == 118u8 && line[1] == 32u8);
    lemma_not_prefix_at(line, kw_hash(), 0);
    lemma_not_prefix_at(line, kw_o(), 0);
    lemma_not_prefix_at(line, kw_vt(), 1);
    lemma_not_prefix_at(line, kw_vn(), 1);
    lemma_prefix_of(line, kw_v());
}

/// Reading a line `vn x y z`, whose three number tokens hold no space, adds
/// the normal `(x, y, z)` in the order written; nothing else changes.
pub proof fn lemma_normal_line_adds_normal(st: ObjState, x: Seq<u8>, y: Seq<u8>, z: Seq<u8>)
    requires
        no_space(x),
        no_space(y),
        no_space(z),
    ensures
        obj_step(st, seq![118u8, 110u8] + seq![32u8] + x + seq![32u8] + y + seq![32u8] + z) == (
            ObjState { normals: st.normals.push((x, y, z)), ..st },
            None::<Seq<u8>>,
        ),
{
    let kw = seq![118u8, 110u8];
    let line = kw + seq![32u8] + x + seq![32u8] + y + seq![32u8] + z;
    lemma_split_three_after(kw, x, y, z);
    assert(line[0] == 118u8 && line[1] == 110u8 && line[2] == 32u8);
    lemma_not_prefix_at(line, kw_hash(), 0);
    lemma_not_prefix_at(line, kw_o(), 0);
    lemma_not_prefix_at(line, kw_vt(), 1);
    lemma_prefix_of(line, kw_vn());
}

/// Reading a line `vt u v`, whose two number tokens hold no space, adds the
/// texture coordinate `(u, v)` in the order written; nothing else changes.
pub proof fn lemma_tex_coord_line_adds_tex_coord(st: ObjState, u: Seq<u8>, v: Seq<u8>)
    requires
        no_space(u),
        no_space(v),
    ensures
        obj_step(st, seq![118u8, 116u8] + seq![32u8] + u + seq![32u8] + v) == (
            ObjState { tex_coords: st.tex_coords.push((u, v)), ..st },
            None::<Seq<u8>>,
        ),
{
    let kw = seq![118u8, 116u8];
    let line = kw + seq![32u8] + u + seq![32u8] + v;
    lemma_split_two_after(kw, u, v);
    assert(line[0] == 118u8 && line[1] == 116u8 && line[2] == 32u8);
    lemma_not_prefix_at(line, kw_hash(), 0);
    lemma_not_prefix_at(line, kw_o(), 0);
    lemma_prefix_of(line, kw_vt());
}

/// Reading a face line `f a b c` into an object adds to that object the
/// triangle whose first, second and third vertices are read from `a`, `b`
/// and `c`, in that order; nothing else changes.
pub proof fn lemma_face_line_adds_triangle(st: ObjState, a: Seq<u8>, b: Seq<u8>, c: Seq<u8>)
    requires
        no_space(a),
        no_space(b),
        no_space(c),
        0 <= st.geom_idx < st.geoms.len(),
    ensures
        ({
            let next = obj_step(st, seq![102u8] + seq![32u8] + a + seq![32u8] + b + seq![32u8] + c);
            let g = st.geoms[st.geom_idx];
            &&& next.1 is None
            &&& next.0.geoms.len() == st.geoms.len()
            &&& next.0.geoms[st.geom_idx].faces == g.faces.push(
                ObjFace { v0: face_idx_of(a), v1: face_idx_of(b), v2: face_idx_of(c) },
            )
            &&& next.0.geoms[st.geom_idx].name == g.name
            &&& next.0.geoms[st.geom_idx].material_index == g.material_index
            &&& forall|k: int| 0 <= k < st.geoms.len() && k != st.geom_idx ==> next.0.geoms[k] == st.geoms[k]
            &&& next.0.positions == st.positions
            &&& next.0.normals == st.normals
            &&& next.0.tex_coords == st.tex_coords
            &&& next.0.geom_idx == st.geom_idx
        }),
{
    let kw = seq![102u8];
    let line = kw + seq![32u8] + a + seq![32u8] + b + seq![32u8] + c;
    lemma_split_three_after(kw, a, b, c);
    assert(line[0] == 102u8);
    lemma_not_prefix_at(line, kw_hash(), 0);
    lemma_not_prefix_at(line, kw_o(), 0);
    lemma_not_prefix_at(line, kw_vt(), 0);
    lemma_not_prefix_at(line, kw_vn(), 0);
    lemma_not_prefix_at(line, kw_v(), 0);
    lemma_not_prefix_at(line, kw_s(), 0);
    lemma_prefix_of(line, kw_f());
}

/// A line `Ka r g b`, `Kd r g b` or `Ks r g b` (the three number tokens
/// holding no space) sets the ambient, diffuse or specular color of the
/// current material to `(r, g, b)`, in the order written, and changes no
/// other material.
pub proof fn lemma_color_lines_set_colors(st: MtlState, r: Seq<u8>, g: Seq<u8>, b: Seq<u8>)
    requires
        0 <= st.current < st.materials.len(),
        no_space(r),
        no_space(g),
        no_space(b),
    ensures
        ({
            let rest = seq![32u8] + r + seq![32u8] + g + seq![32u8] + b;
            let ka = mtl_step(st, seq![75u8, 97u8] + rest);
            let kd = mtl_step(st, seq![75u8, 100u8] + rest);
            let ks = mtl_step(st, seq![75u8, 115u8] + rest);
            &&& ka.current == st.current && kd.current == st.current && ks.current == st.current
            &&& ka.materials.len() == st.materials.len()
            &&& kd.materials.len() == st.materials.len()
            &&& ks.materials.len() == st.materials.len()
            &&& ka.materials[st.current].ambient_color == Some((r, g, b))
            &&& kd.materials[st.current].diffuse_color == Some((r, g, b))
            &&& ks.materials[st.current].specular_color == Some((r, g, b))
            &&& forall|k: int|
                0 <= k < st.materials.len() && k != st.current ==> ka.materials[k] == st.materials[k]
                    && kd.materials[k] == st.materials[k] && ks.materials[k] == st.materials[k]
        }),
{
    let rest = seq![32u8] + r + seq![32u8] + g + seq![32u8] + b;
    let l_ka = seq![75u8, 97u8] + rest;
    let l_kd = seq![75u8, 100u8] + rest;
    let l_ks = seq![75u8, 115u8] + rest;
    assert(l_ka =~= seq![75u8, 97u8] + seq![32u8] + r + seq![32u8] + g + seq![32u8] + b);
    assert(l_kd =~= seq![75u8, 100u8] + seq![32u8] + r + seq![32u8] + g + seq![32u8] + b);
    assert(l_ks =~= seq![75u8, 115u8] + seq![32u8] + r + seq![32u8] + g + seq![32u8] + b);
    lemma_split_three_after(seq![75u8, 97u8], r, g, b);
    lemma_split_three_after(seq![75u8, 100u8], r, g, b);
    lemma_split_three_after(seq![75u8, 115u8], r, g, b);
    assert(l_ka[0] == 75u8 && l_ka[1] == 97u8 && l_ka[2] == 32u8);
    assert(l_kd[0] == 75u8 && l_kd[1] == 100u8 && l_kd[2] == 32u8);
    assert(l_ks[0] == 75u8 && l_ks[1] == 115u8 && l_ks[2] == 32u8);
    lemma_not_prefix_at(l_ka, kw_hash(), 0);
    lemma_not_prefix_at(l_ka, kw_newmtl(), 0);
    lemma_not_prefix_at(l_ka, kw_ns(), 0);
    lemma_prefix_of(l_ka, kw_ka());
    lemma_not_prefix_at(l_kd, kw_hash(), 0);
    lemma_not_prefix_at(l_kd, kw_newmtl(), 0);
    lemma_not_prefix_at(l_kd, kw_ns(), 0);
    lemma_not_prefix_at(l_kd, kw_ka(), 1);
    lemma_prefix_of(l_kd, kw_kd());
    lemma_not_prefix_at(l_ks, kw_hash(), 0);
    lemma_not_prefix_at(l_ks, kw_newmtl(), 0);
    lemma_not_prefix_at(l_ks, kw_ns(), 0);
    lemma_not_prefix_at(l_ks, kw_ka(), 1);
    lemma_not_prefix_at(l_ks, kw_kd(), 1);
    lemma_prefix_of(l_ks, kw_ks());
}

/// In an MTL file, a line `Ks r g b` right after `newmtl m` (the name and the
/// three number tokens holding no space) gives the new material `m` the
/// specular color `(r, g, b)`, in the order written; the materials before it
/// stay as they were.
pub proof fn lemma_specular_line_sets_color(
    lines: Seq<Seq<u8>>,
    name: Seq<u8>,
    r: Seq<u8>,
    g: Seq<u8>,
    b: Seq<u8>,
)
    requires
        no_space(name),
        no_space(r),
        no_space(g),
        no_space(b),
    ensures
        ({
            let before = mtl_run(lines).materials;
            let after = mtl_run(
                lines.push(seq![110u8, 101u8, 119u8, 109u8, 116u8, 108u8, 32u8] + name).push(
                    seq![75u8, 115u8, 32u8] + r + seq![32u8] + g + seq![32u8] + b,
                ),
            ).materials;
            &&& after.len() == before.len() + 1
            &&& after.drop_last() == before
            &&& after.last().name == name
            &&& after.last().specular_color == Some((r, g, b))
        }),
{
    let l1 = seq![110u8, 101u8, 119u8, 109u8, 116u8, 108u8, 32u8] + name;
    let l2 = seq![75u8, 115u8, 32u8] + r + seq![32u8] + g + seq![32u8] + b;
    let all = lines.push(l1).push(l2);
    assert(all.drop_last() =~= lines.push(l1));
    assert(lines.push(l1).drop_last() =~= lines);
    let st0 = mtl_run(lines);
    let st1 = mtl_run(lines.push(l1));
    assert(st1 == mtl_step(st0, l1));
    assert(mtl_run(all) == mtl_step(st1, l2));
    // The `newmtl` line.
    let kw1 = seq![110u8, 101u8, 119u8, 109u8, 116u8, 108u8];
    assert(kw1 + seq![32u8] + name =~= l1);
    assert(no_space(kw1));
    lemma_split_on_single(kw1, 32u8);
    lemma_split_on_append_piece(kw1, name, 32u8);
    assert(split_on(l1, 32u8) =~= seq![kw1, name]);
    assert(l1[0] == 110u8);
    lemma_not_prefix_at(l1, kw_hash(), 0);
    lemma_prefix_of(l1, kw_newmtl());
    assert(st1.materials == st0.materials.push(default_material(name)));
    assert(st1.current == st0.materials.len());
    // The `Ks` line.
    assert(l2 =~= seq![75u8, 115u8] + (seq![32u8] + r + seq![32u8] + g + seq![32u8] + b));
    lemma_color_lines_set_colors(st1, r, g, b);
    let st2 = mtl_run(all);
    assert(st2.materials.drop_last() =~= st0.materials);
}

} // verus!
