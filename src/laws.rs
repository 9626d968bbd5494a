//! Properties of linking and filling that relate several calls.

use vstd::prelude::*;
use crate::program::{ShaderVar, ProgramInfo, ParamStorage};
use crate::param::{ParameterError, ShaderParam, NoParams, EmptyLink};
use crate::dictionary::{
    NamedCell, ParamDictionary, ParamDictionaryLink, has_name, is_first_match, resolves,
    all_named, first_missing, names_first_missing, slots_fit, filled_seq, dictionary_link_result,
};

verus! {

/// Linking the empty source to a program that declares no variable
/// succeeds, and filling through any link of it leaves the storage as it was.
pub proof fn no_params_link_empty_program(
    this: Option<NoParams>,
    info: ProgramInfo,
    r: Result<EmptyLink, ParameterError>,
    src: NoParams,
    before: ParamStorage,
    after: ParamStorage,
)
    requires
        info.is_empty_interface(),
        NoParams::link_result(this, info, r),
        src.filled(EmptyLink, before, after),
    ensures
        r == Ok::<EmptyLink, ParameterError>(EmptyLink),
        after == before,
{
}

/// Linking the empty source to a program that declares a variable fails,
/// naming the first declared variable: uniforms first, then blocks, then
/// textures.
pub proof fn no_params_link_declaring_program(
    this: Option<NoParams>,
    info: ProgramInfo,
    r: Result<EmptyLink, ParameterError>,
)
    requires
        !info.is_empty_interface(),
        NoParams::link_result(this, info, r),
    ensures
        info.uniforms@.len() > 0 ==> r == Err::<EmptyLink, ParameterError>(
            ParameterError::MissingUniform(info.uniforms@[0].name),
        ),
        info.uniforms@.len() == 0 && info.blocks@.len() > 0 ==> r == Err::<EmptyLink, ParameterError>(
            ParameterError::MissingBlock(info.blocks@[0].name),
        ),
        info.uniforms@.len() == 0 && info.blocks@.len() == 0 ==> r == Err::<EmptyLink, ParameterError>(
            ParameterError::MissingTexture(info.textures@[0].name),
        ),
{
}

/// The cells of `a` and `b` have the same names, in the same order.
pub open spec fn same_names<T, U>(a: Seq<NamedCell<T>>, b: Seq<NamedCell<U>>) -> bool {
    &&& a.len() == b.len()
    &&& forall|i: int| 0 <= i < a.len() ==> #[trigger] a[i].name@ == b[i].name@
}

/// Two dictionaries whose cells have the same names in every category.
pub open spec fn same_dictionary_names(d1: ParamDictionary, d2: ParamDictionary) -> bool {
    &&& same_names(d1.uniforms@, d2.uniforms@)
    &&& same_names(d1.blocks@, d2.blocks@)
    &&& same_names(d1.textures@, d2.textures@)
}

/// The two errors are of the same variant and name the same variable.
pub open spec fn same_error(e1: ParameterError, e2: ParameterError) -> bool {
    match (e1, e2) {
        (ParameterError::MissingSelf, ParameterError::MissingSelf) => true,
        (ParameterError::MissingUniform(a), ParameterError::MissingUniform(b)) => a@ == b@,
        (ParameterError::BadUniform(a), ParameterError::BadUniform(b)) => a@ == b@,
        (ParameterError::MissingBlock(a), ParameterError::MissingBlock(b)) => a@ == b@,
        (ParameterError::BadBlock(a), ParameterError::BadBlock(b)) => a@ == b@,
        (ParameterError::MissingTexture(a), ParameterError::MissingTexture(b)) => a@ == b@,
        (ParameterError::BadTexture(a), ParameterError::BadTexture(b)) => a@ == b@,
        _ => false,
    }
}

/// Both links hold the same positions, or both errors are the same.
pub open spec fn same_link_outcome(
    r1: Result<ParamDictionaryLink, ParameterError>,
    r2: Result<ParamDictionaryLink, ParameterError>,
) -> bool {
    match (r1, r2) {
        (Ok(l1), Ok(l2)) => {
            &&& l1.uniform_slots() == l2.uniform_slots()
            &&& l1.block_slots() == l2.block_slots()
            &&& l1.texture_slots() == l2.texture_slots()
        },
        (Err(e1), Err(e2)) => same_error(e1, e2),
        _ => false,
    }
}

proof fn lemma_first_match_unique<T, U>(c1: Seq<NamedCell<T>>, c2: Seq<NamedCell<U>>, name: Seq<char>, i: int, j: int)
    requires
        same_names(c1, c2),
        is_first_match(c1, name, i),
        is_first_match(c2, name, j),
    ensures
        i == j,
{
    if i < j {
        assert(c1[i].name@ == c2[i].name@);
    } else if j < i {
        assert(c1[j].name@ == c2[j].name@);
    }
}

proof fn lemma_has_name_same<T, U>(c1: Seq<NamedCell<T>>, c2: Seq<NamedCell<U>>, name: Seq<char>)
    requires
        same_names(c1, c2),
    ensures
        has_name(c1, name) == has_name(c2, name),
{
    if has_name(c1, name) {
        let i = choose|i: int| 0 <= i < c1.len() && #[trigger] c1[i].name@ == name;
        assert(c2[i].name@ == name);
    }
    if has_name(c2, name) {
        let i = choose|i: int| 0 <= i < c2.len() && #[trigger] c2[i].name@ == name;
        assert(c1[i].name@ == name);
    }
}

proof fn lemma_resolves_all_named<T>(cells: Seq<NamedCell<T>>, vars: Seq<ShaderVar>, slots: Seq<usize>)
    requires
        resolves(cells, vars, slots),
    ensures
        all_named(cells, vars),
{
    assert forall|k: int| 0 <= k < vars.len() implies has_name(cells, #[trigger] vars[k].name@) by {
        assert(cells[slots[k] as int].name@ == vars[k].name@);
    }
}

proof fn lemma_same_resolution<T, U>(
    c1: Seq<NamedCell<T>>,
    c2: Seq<NamedCell<U>>,
    vars: Seq<ShaderVar>,
    s1: Seq<usize>,
    s2: Seq<usize>,
)
    requires
        same_names(c1, c2),
        resolves(c1, vars, s1),
        resolves(c2, vars, s2),
    ensures
        s1 == s2,
{
    assert forall|k: int| 0 <= k < s1.len() implies s1[k] == s2[k] by {
        lemma_first_match_unique(c1, c2, vars[k].name@, s1[k] as int, s2[k] as int);
    }
    assert(s1 =~= s2);
}

proof fn lemma_same_missing_name<T, U>(
    c1: Seq<NamedCell<T>>,
    c2: Seq<NamedCell<U>>,
    vars: Seq<ShaderVar>,
    n1: String,
    n2: String,
)
    requires
        same_names(c1, c2),
        names_first_missing(c1, vars, n1),
        names_first_missing(c2, vars, n2),
    ensures
        n1@ == n2@,
{
    let k1 = choose|k: int| first_missing(c1, vars, k) && n1@ == #[trigger] vars[k].name@;
    let k2 = choose|k: int| first_missing(c2, vars, k) && n2@ == #[trigger] vars[k].name@;
    lemma_has_name_same(c1, c2, vars[k1].name@);
    lemma_has_name_same(c1, c2, vars[k2].name@);
    if k1 < k2 {
        assert(has_name(c2, vars[k1].name@));
    } else if k2 < k1 {
        assert(has_name(c1, vars[k2].name@));
    }
}

proof fn lemma_missing_not_all_named<T>(cells: Seq<NamedCell<T>>, vars: Seq<ShaderVar>, n: String)
    requires
        names_first_missing(cells, vars, n),
    ensures
        !all_named(cells, vars),
{
    let k = choose|k: int| first_missing(cells, vars, k) && n@ == #[trigger] vars[k].name@;
    assert(!has_name(cells, vars[k].name@));
}

proof fn lemma_all_named_same<T, U>(c1: Seq<NamedCell<T>>, c2: Seq<NamedCell<U>>, vars: Seq<ShaderVar>)
    requires
        same_names(c1, c2),
    ensures
        all_named(c1, vars) == all_named(c2, vars),
{
    assert forall|k: int| 0 <= k < vars.len() implies has_name(c1, #[trigger] vars[k].name@) == has_name(
        c2,
        vars[k].name@,
    ) by {
        lemma_has_name_same(c1, c2, vars[k].name@);
    }
}

/// Linking is deterministic and depends on the cells' names alone: two
/// dictionaries whose cells have the same names, in the same order, linked
/// to the same program, give the same positions or the same error. This
/// holds in particular of one dictionary linked twice, and of a dictionary
/// before and after a change of cell values.
pub proof fn dictionary_link_deterministic(
    d1: ParamDictionary,
    d2: ParamDictionary,
    info: ProgramInfo,
    r1: Result<ParamDictionaryLink, ParameterError>,
    r2: Result<ParamDictionaryLink, ParameterError>,
)
    requires
        same_dictionary_names(d1, d2),
        ParamDictionary::link_result(Some(d1), info, r1),
        ParamDictionary::link_result(Some(d2), info, r2),
    ensures
        same_link_outcome(r1, r2),
{
    lemma_all_named_same(d1.uniforms@, d2.uniforms@, info.uniforms@);
    lemma_all_named_same(d1.blocks@, d2.blocks@, info.blocks@);
    lemma_all_named_same(d1.textures@, d2.textures@, info.textures@);
    match r1 {
        Ok(l1) => {
            lemma_resolves_all_named(d1.uniforms@, info.uniforms@, l1.uniform_slots());
            lemma_resolves_all_named(d1.blocks@, info.blocks@, l1.block_slots());
            lemma_resolves_all_named(d1.textures@, info.textures@, l1.texture_slots());
        },
        Err(ParameterError::MissingUniform(n)) => {
            lemma_missing_not_all_named(d1.uniforms@, info.uniforms@, n);
        },
        Err(ParameterError::MissingBlock(n)) => {
            lemma_missing_not_all_named(d1.blocks@, info.blocks@, n);
        },
        Err(ParameterError::MissingTexture(n)) => {
            lemma_missing_not_all_named(d1.textures@, info.textures@, n);
        },
        Err(_) => {},
    }
    match r2 {
        Ok(l2) => {
            lemma_resolves_all_named(d2.uniforms@, info.uniforms@, l2.uniform_slots());
            lemma_resolves_all_named(d2.blocks@, info.blocks@, l2.block_slots());
            lemma_resolves_all_named(d2.textures@, info.textures@, l2.texture_slots());
        },
        Err(ParameterError::MissingUniform(n)) => {
            lemma_missing_not_all_named(d2.uniforms@, info.uniforms@, n);
        },
        Err(ParameterError::MissingBlock(n)) => {
            lemma_missing_not_all_named(d2.blocks@, info.blocks@, n);
        },
        Err(ParameterError::MissingTexture(n)) => {
            lemma_missing_not_all_named(d2.textures@, info.textures@, n);
        },
        Err(_) => {},
    }
    match (r1, r2) {
        (Ok(l1), Ok(l2)) => {
            lemma_same_resolution(d1.uniforms@, d2.uniforms@, info.uniforms@, l1.uniform_slots(), l2.uniform_slots());
            lemma_same_resolution(d1.blocks@, d2.blocks@, info.blocks@, l1.block_slots(), l2.block_slots());
            lemma_same_resolution(d1.textures@, d2.textures@, info.textures@, l1.texture_slots(), l2.texture_slots());
        },
        (Err(ParameterError::MissingUniform(a)), Err(ParameterError::MissingUniform(b))) => {
            lemma_same_missing_name(d1.uniforms@, d2.uniforms@, info.uniforms@, a, b);
        },
        (Err(ParameterError::MissingBlock(a)), Err(ParameterError::MissingBlock(b))) => {
            lemma_same_missing_name(d1.blocks@, d2.blocks@, info.blocks@, a, b);
        },
        (Err(ParameterError::MissingTexture(a)), Err(ParameterError::MissingTexture(b))) => {
            lemma_same_missing_name(d1.textures@, d2.textures@, info.textures@, a, b);
        },
        _ => {},
    }
}

/// Slot `k` of `out` holds the value of the first cell named `name`.
pub open spec fn holds_first_match<T>(out: Seq<Option<T>>, k: int, cells: Seq<NamedCell<T>>, name: Seq<char>) -> bool {
    exists|i: int| is_first_match(cells, name, i) && out[k] == Some(#[trigger] cells[i].value)
}

/// Each of the first `vars.len()` slots of `after` holds the value of the
/// first cell named as the variable at that position; the slots past them
/// are those of `before`.
pub open spec fn bound_by_name<T>(
    after: Seq<Option<T>>,
    before: Seq<Option<T>>,
    cells: Seq<NamedCell<T>>,
    vars: Seq<ShaderVar>,
) -> bool {
    &&& after.len() == before.len()
    &&& forall|k: int| 0 <= k < vars.len() ==> holds_first_match(after, k, cells, #[trigger] vars[k].name@)
    &&& forall|k: int| vars.len() <= k < before.len() ==> #[trigger] after[k] == before[k]
}

proof fn lemma_bound_by_name<T>(
    before: Seq<Option<T>>,
    cells: Seq<NamedCell<T>>,
    vars: Seq<ShaderVar>,
    slots: Seq<usize>,
)
    requires
        resolves(cells, vars, slots),
        slots.len() <= before.len(),
    ensures
        bound_by_name(filled_seq(before, cells, slots), before, cells, vars),
{
    let after = filled_seq(before, cells, slots);
    assert forall|k: int| 0 <= k < vars.len() implies holds_first_match(after, k, cells, #[trigger] vars[k].name@) by {
        assert(is_first_match(cells, vars[k].name@, slots[k] as int));
        assert(after[k] == Some(cells[slots[k] as int].value));
    }
    assert forall|k: int| vars.len() <= k < before.len() implies #[trigger] after[k] == before[k] by {}
}

/// After a successful link of `d` to `info` and a fill through it, each
/// declared variable's slot holds the value of the first cell of its
/// category named as the variable, and no other slot has changed.
pub proof fn fill_after_link(
    d: ParamDictionary,
    info: ProgramInfo,
    link: ParamDictionaryLink,
    before: ParamStorage,
    after: ParamStorage,
)
    requires
        ParamDictionary::link_result(Some(d), info, Ok(link)),
        d.fits(link, before),
        d.filled(link, before, after),
    ensures
        bound_by_name(after.uniforms@, before.uniforms@, d.uniforms@, info.uniforms@),
        bound_by_name(after.blocks@, before.blocks@, d.blocks@, info.blocks@),
        bound_by_name(after.textures@, before.textures@, d.textures@, info.textures@),
{
    lemma_bound_by_name(before.uniforms@, d.uniforms@, info.uniforms@, link.uniform_slots());
    lemma_bound_by_name(before.blocks@, d.blocks@, info.blocks@, link.block_slots());
    lemma_bound_by_name(before.textures@, d.textures@, info.textures@, link.texture_slots());
}

/// Filling twice through the same link from an unchanged dictionary gives
/// the same storage both times.
pub proof fn fill_idempotent(
    d: ParamDictionary,
    link: ParamDictionaryLink,
    s0: ParamStorage,
    s1: ParamStorage,
    s2: ParamStorage,
)
    requires
        d.fits(link, s0),
        d.filled(link, s0, s1),
        d.filled(link, s1, s2),
    ensures
        d.fits(link, s1),
        s2.uniforms@ == s1.uniforms@,
        s2.blocks@ == s1.blocks@,
        s2.textures@ == s1.textures@,
{
    assert(s2.uniforms@ =~= s1.uniforms@);
    assert(s2.blocks@ =~= s1.blocks@);
    assert(s2.textures@ =~= s1.textures@);
}

/// Filling `out` again after cell `j` of `cells` got a new value (its name
/// kept) changes exactly the slots that the link points at `j`, each to the
/// new value.
pub proof fn refill_after_cell_change<T>(
    out: Seq<Option<T>>,
    cells: Seq<NamedCell<T>>,
    slots: Seq<usize>,
    j: int,
    cell: NamedCell<T>,
)
    requires
        slots_fit(cells.len(), slots, out.len()),
        0 <= j < cells.len(),
        cell.name@ == cells[j].name@,
    ensures
        slots_fit(cells.update(j, cell).len(), slots, out.len()),
        filled_seq(out, cells.update(j, cell), slots).len() == out.len(),
        forall|k: int|
            0 <= k < out.len() ==> #[trigger] filled_seq(out, cells.update(j, cell), slots)[k] == if k
                < slots.len() && slots[k] == j {
                Some(cell.value)
            } else {
                filled_seq(out, cells, slots)[k]
            },
{
}

/// Filling through an unchanged link after the value of uniform cell `j`
/// was replaced (its name kept): the link still is the one that linking
/// the changed dictionary gives, and the second fill changes exactly the
/// uniform slots that the link points at `j`, to the new value.
pub proof fn fill_after_uniform_change(
    d1: ParamDictionary,
    d2: ParamDictionary,
    info: ProgramInfo,
    link: ParamDictionaryLink,
    j: int,
    s0: ParamStorage,
    s1: ParamStorage,
    s2: ParamStorage,
)
    requires
        ParamDictionary::link_result(Some(d1), info, Ok(link)),
        0 <= j < d1.uniforms@.len(),
        d2.uniforms@ == d1.uniforms@.update(j, d2.uniforms@[j]),
        d2.uniforms@[j].name@ == d1.uniforms@[j].name@,
        d2.blocks@ == d1.blocks@,
        d2.textures@ == d1.textures@,
        d1.fits(link, s0),
        d1.filled(link, s0, s1),
        d2.filled(link, s1, s2),
    ensures
        ParamDictionary::link_result(Some(d2), info, Ok(link)),
        d2.fits(link, s1),
        s2.uniforms@.len() == s1.uniforms@.len(),
        forall|k: int|
            0 <= k < s1.uniforms@.len() ==> #[trigger] s2.uniforms@[k] == if k < link.uniform_slots().len()
                && link.uniform_slots()[k] == j {
                Some(d2.uniforms@[j].value)
            } else {
                s1.uniforms@[k]
            },
        s2.blocks@ == s1.blocks@,
        s2.textures@ == s1.textures@,
{
    let c1 = d1.uniforms@;
    let c2 = d2.uniforms@;
    let vars = info.uniforms@;
    let slots = link.uniform_slots();
    assert forall|k: int| 0 <= k < vars.len() implies is_first_match(c2, #[trigger] vars[k].name@, slots[k] as int) by {
        assert(is_first_match(c1, vars[k].name@, slots[k] as int));
        assert(c2[slots[k] as int].name@ == c1[slots[k] as int].name@);
        assert forall|i: int| 0 <= i < slots[k] implies #[trigger] c2[i].name@ != vars[k].name@ by {
            assert(c2[i].name@ == c1[i].name@);
        }
    }
    assert(s2.blocks@ =~= s1.blocks@);
    assert(s2.textures@ =~= s1.textures@);
}

/// Linking a dictionary to a program that declares a name the dictionary
/// lacks gives no link: it fails with the error of the first category, in
/// the order uniforms, blocks, textures, where a name is lacking, and the
/// error names a variable of that category that the dictionary lacks.
pub proof fn link_fails_on_missing_name(
    d: ParamDictionary,
    info: ProgramInfo,
    r: Result<ParamDictionaryLink, ParameterError>,
)
    requires
        !all_named(d.uniforms@, info.uniforms@) || !all_named(d.blocks@, info.blocks@) || !all_named(
            d.textures@,
            info.textures@,
        ),
        ParamDictionary::link_result(Some(d), info, r),
    ensures
        match r {
            Err(ParameterError::MissingUniform(n)) => !has_name(d.uniforms@, n@),
            Err(ParameterError::MissingBlock(n)) => {
                &&& all_named(d.uniforms@, info.uniforms@)
                &&& !has_name(d.blocks@, n@)
            },
            Err(ParameterError::MissingTexture(n)) => {
                &&& all_named(d.uniforms@, info.uniforms@)
                &&& all_named(d.blocks@, info.blocks@)
                &&& !has_name(d.textures@, n@)
            },
            _ => false,
        },
{
    match r {
        Ok(l) => {
            lemma_resolves_all_named(d.uniforms@, info.uniforms@, l.uniform_slots());
            lemma_resolves_all_named(d.blocks@, info.blocks@, l.block_slots());
            lemma_resolves_all_named(d.textures@, info.textures@, l.texture_slots());
        },
        Err(ParameterError::MissingUniform(n)) => {
            let k = choose|k: int| first_missing(d.uniforms@, info.uniforms@, k) && n@ == #[trigger] info.uniforms@[k].name@;
        },
        Err(ParameterError::MissingBlock(n)) => {
            let k = choose|k: int| first_missing(d.blocks@, info.blocks@, k) && n@ == #[trigger] info.blocks@[k].name@;
        },
        Err(ParameterError::MissingTexture(n)) => {
            let k = choose|k: int| first_missing(d.textures@, info.textures@, k) && n@ == #[trigger] info.textures@[k].name@;
        },
        Err(_) => {},
    }
}

} // verus!
