//! A named, mutable table of parameter values that links to any program by
//! resolving the program's variable names.

use vstd::prelude::*;
use crate::value::{UniformValue, BufferHandle, TextureParam};
use crate::program::{ShaderVar, ProgramInfo, ParamStorage};
use crate::param::{ParameterError, ShaderParam};

verus! {

/// A named value of the dictionary.
pub struct NamedCell<T> {
    pub name: String,
    pub value: T,
}

/// Parameter values by name, meant to be shared between programs. Within a
/// category a name should occur once; where it occurs more than once, the
/// first cell with it is the one used.
pub struct ParamDictionary {
    pub uniforms: Vec<NamedCell<UniformValue>>,
    pub blocks: Vec<NamedCell<BufferHandle>>,
    pub textures: Vec<NamedCell<TextureParam>>,
}

/// For each variable of a program, in declared order, the position of the
/// dictionary cell that supplies its value.
#[derive(Clone)]
pub struct ParamDictionaryLink {
    uniforms: Vec<usize>,
    blocks: Vec<usize>,
    textures: Vec<usize>,
}

/// Some cell of `cells` is named `name`.
pub open spec fn has_name<T>(cells: Seq<NamedCell<T>>, name: Seq<char>) -> bool {
    exists|i: int| 0 <= i < cells.len() && #[trigger] cells[i].name@ == name
}

/// `i` is the first cell of `cells` named `name`.
pub open spec fn is_first_match<T>(cells: Seq<NamedCell<T>>, name: Seq<char>, i: int) -> bool {
    &&& 0 <= i < cells.len()
    &&& cells[i].name@ == name
    &&& forall|j: int| 0 <= j < i ==> #[trigger] cells[j].name@ != name
}

/// `slots` gives, for each variable of `vars`, the first cell named as it is.
pub open spec fn resolves<T>(cells: Seq<NamedCell<T>>, vars: Seq<ShaderVar>, slots: Seq<usize>) -> bool {
    &&& slots.len() == vars.len()
    &&& forall|k: int| 0 <= k < vars.len() ==> is_first_match(cells, #[trigger] vars[k].name@, slots[k] as int)
}

/// Every variable of `vars` has a cell named as it is.
pub open spec fn all_named<T>(cells: Seq<NamedCell<T>>, vars: Seq<ShaderVar>) -> bool {
    forall|k: int| 0 <= k < vars.len() ==> has_name(cells, #[trigger] vars[k].name@)
}

/// `k` is the first variable of `vars` that no cell is named as.
pub open spec fn first_missing<T>(cells: Seq<NamedCell<T>>, vars: Seq<ShaderVar>, k: int) -> bool {
    &&& 0 <= k < vars.len()
    &&& !has_name(cells, vars[k].name@)
    &&& forall|j: int| 0 <= j < k ==> has_name(cells, #[trigger] vars[j].name@)
}

/// `n` names the first variable of `vars` that no cell is named as.
pub open spec fn names_first_missing<T>(cells: Seq<NamedCell<T>>, vars: Seq<ShaderVar>, n: String) -> bool {
    exists|k: int| first_missing(cells, vars, k) && n@ == #[trigger] vars[k].name@
}

/// `slots` may be used to fill an output of `n_out` slots from `n_cells`
/// cells.
pub open spec fn slots_fit(n_cells: nat, slots: Seq<usize>, n_out: nat) -> bool {
    &&& slots.len() <= n_out
    &&& forall|k: int| 0 <= k < slots.len() ==> #[trigger] slots[k] < n_cells
}

/// `before` with slot `k` set to the value of cell `slots[k]`, for each `k`
/// of `slots`; the other slots kept.
pub open spec fn filled_seq<T>(before: Seq<Option<T>>, cells: Seq<NamedCell<T>>, slots: Seq<usize>) -> Seq<Option<T>> {
    Seq::new(
        before.len(),
        |i: int|
            if i < slots.len() {
                Some(cells[slots[i] as int].value)
            } else {
                before[i]
            },
    )
}

impl ParamDictionaryLink {
    /// Dictionary positions of the program's uniforms, in declared order.
    pub closed spec fn uniform_slots(&self) -> Seq<usize> {
        self.uniforms@
    }

    /// Dictionary positions of the program's blocks, in declared order.
    pub closed spec fn block_slots(&self) -> Seq<usize> {
        self.blocks@
    }

    /// Dictionary positions of the program's textures, in declared order.
    pub closed spec fn texture_slots(&self) -> Seq<usize> {
        self.textures@
    }

    pub fn uniforms(&self) -> (r: &[usize])
        ensures
            r@ == self.uniform_slots(),
    {
        self.uniforms.as_slice()
    }

    pub fn blocks(&self) -> (r: &[usize])
        ensures
            r@ == self.block_slots(),
    {
        self.blocks.as_slice()
    }

    pub fn textures(&self) -> (r: &[usize])
        ensures
            r@ == self.texture_slots(),
    {
        self.textures.as_slice()
    }
}

impl ParamDictionary {
    /// Replaces the value of uniform cell `index`, keeping its name.
    pub fn set_uniform(&mut self, index: usize, value: UniformValue)
        requires
            index < old(self).uniforms@.len(),
        ensures
            final(self).uniforms@.len() == old(self).uniforms@.len(),
            final(self).uniforms@[index as int].name == old(self).uniforms@[index as int].name,
            final(self).uniforms@[index as int].value == value,
            forall|i: int| 0 <= i < old(self).uniforms@.len() && i != index ==> #[trigger] final(self).uniforms@[i] == old(self).uniforms@[i],
            final(self).blocks@ == old(self).blocks@,
            final(self).textures@ == old(self).textures@,
    {
        let name = self.uniforms[index].name.clone();
        self.uniforms.set(index, NamedCell { name, value });
    }

    /// Replaces the value of block cell `index`, keeping its name.
    pub fn set_block(&mut self, index: usize, value: BufferHandle)
        requires
            index < old(self).blocks@.len(),
        ensures
            final(self).blocks@.len() == old(self).blocks@.len(),
            final(self).blocks@[index as int].name == old(self).blocks@[index as int].name,
            final(self).blocks@[index as int].value == value,
            forall|i: int| 0 <= i < old(self).blocks@.len() && i != index ==> #[trigger] final(self).blocks@[i] == old(self).blocks@[i],
            final(self).uniforms@ == old(self).uniforms@,
            final(self).textures@ == old(self).textures@,
    {
        let name = self.blocks[index].name.clone();
        self.blocks.set(index, NamedCell { name, value });
    }

    /// Replaces the value of texture cell `index`, keeping its name.
    pub fn set_texture(&mut self, index: usize, value: TextureParam)
        requires
            index < old(self).textures@.len(),
        ensures
            final(self).textures@.len() == old(self).textures@.len(),
            final(self).textures@[index as int].name == old(self).textures@[index as int].name,
            final(self).textures@[index as int].value == value,
            forall|i: int| 0 <= i < old(self).textures@.len() && i != index ==> #[trigger] final(self).textures@[i] == old(self).textures@[i],
            final(self).uniforms@ == old(self).uniforms@,
            final(self).blocks@ == old(self).blocks@,
    {
        let name = self.textures[index].name.clone();
        self.textures.set(index, NamedCell { name, value });
    }
}

/// The position of the first cell named `name`.
fn position<T>(cells: &Vec<NamedCell<T>>, name: &String) -> (r: Option<usize>)
    ensures
        match r {
            Some(i) => is_first_match(cells@, name@, i as int),
            None => !has_name(cells@, name@),
        },
{
    let mut i: usize = 0;
    while i < cells.len()
        invariant
            i <= cells@.len(),
            forall|j: int| 0 <= j < i ==> #[trigger] cells@[j].name@ != name@,
        decreases cells@.len() - i,
    {
        if cells[i].name == *name {
            return Some(i);
        }
        i = i + 1;
    }
    None
}

/// The first-match position of each variable of `vars`, or the position of
/// the first variable that has none.
fn resolve<T>(cells: &Vec<NamedCell<T>>, vars: &Vec<ShaderVar>) -> (r: Result<Vec<usize>, usize>)
    ensures
        match r {
            Ok(slots) => resolves(cells@, vars@, slots@),
            Err(k) => first_missing(cells@, vars@, k as int),
        },
{
    let mut slots: Vec<usize> = Vec::with_capacity(vars.len());
    let mut k: usize = 0;
    while k < vars.len()
        invariant
            k <= vars@.len(),
            slots@.len() == k,
            forall|j: int| 0 <= j < k ==> is_first_match(cells@, #[trigger] vars@[j].name@, slots@[j] as int),
        decreases vars@.len() - k,
    {
        match position(cells, &vars[k].name) {
            Some(i) => slots.push(i),
            None => {
                assert forall|j: int| 0 <= j < k implies has_name(cells@, #[trigger] vars@[j].name@) by {
                    assert(cells@[slots@[j] as int].name@ == vars@[j].name@);
                }
                return Err(k);
            },
        }
        k = k + 1;
    }
    Ok(slots)
}

/// Sets each output slot `k` of `slots` to the value of cell `slots[k]`.
fn fill_slots<T: Copy>(cells: &Vec<NamedCell<T>>, slots: &Vec<usize>, out: &mut Vec<Option<T>>)
    requires
        slots_fit(cells@.len(), slots@, old(out)@.len()),
    ensures
        final(out)@ == filled_seq(old(out)@, cells@, slots@),
{
    let ghost before = out@;
    let mut k: usize = 0;
    while k < slots.len()
        invariant
            k <= slots@.len(),
            slots_fit(cells@.len(), slots@, before.len()),
            out@.len() == before.len(),
            forall|i: int| 0 <= i < k ==> #[trigger] out@[i] == Some(cells@[slots@[i] as int].value),
            forall|i: int| k <= i < before.len() ==> #[trigger] out@[i] == before[i],
        decreases slots@.len() - k,
    {
        let id = slots[k];
        let v = cells[id].value;
        out.set(k, Some(v));
        k = k + 1;
    }
    assert(out@ =~= filled_seq(before, cells@, slots@));
}

/// What linking the dictionary `d` against `info` may return: the
/// first-match positions of all variables, or the first variable without a
/// cell of its name, looking at uniforms, then blocks, then textures.
pub open spec fn dictionary_link_result(
    d: ParamDictionary,
    info: ProgramInfo,
    r: Result<ParamDictionaryLink, ParameterError>,
) -> bool {
    match r {
        Ok(link) => {
            &&& resolves(d.uniforms@, info.uniforms@, link.uniform_slots())
            &&& resolves(d.blocks@, info.blocks@, link.block_slots())
            &&& resolves(d.textures@, info.textures@, link.texture_slots())
        },
        Err(ParameterError::MissingUniform(n)) => names_first_missing(d.uniforms@, info.uniforms@, n),
        Err(ParameterError::MissingBlock(n)) => {
            &&& all_named(d.uniforms@, info.uniforms@)
            &&& names_first_missing(d.blocks@, info.blocks@, n)
        },
        Err(ParameterError::MissingTexture(n)) => {
            &&& all_named(d.uniforms@, info.uniforms@)
            &&& all_named(d.blocks@, info.blocks@)
            &&& names_first_missing(d.textures@, info.textures@, n)
        },
        Err(_) => false,
    }
}

impl ShaderParam for ParamDictionary {
    type Link = ParamDictionaryLink;

    open spec fn link_result(
        this: Option<Self>,
        info: ProgramInfo,
        r: Result<ParamDictionaryLink, ParameterError>,
    ) -> bool {
        match this {
            None => r == Err::<ParamDictionaryLink, ParameterError>(ParameterError::MissingSelf),
            Some(d) => dictionary_link_result(d, info, r),
        }
    }

    open spec fn fits(&self, link: ParamDictionaryLink, storage: ParamStorage) -> bool {
        &&& slots_fit(self.uniforms@.len(), link.uniform_slots(), storage.uniforms@.len())
        &&& slots_fit(self.blocks@.len(), link.block_slots(), storage.blocks@.len())
        &&& slots_fit(self.textures@.len(), link.texture_slots(), storage.textures@.len())
    }

    open spec fn filled(&self, link: ParamDictionaryLink, before: ParamStorage, after: ParamStorage) -> bool {
        &&& after.uniforms@ == filled_seq(before.uniforms@, self.uniforms@, link.uniform_slots())
        &&& after.blocks@ == filled_seq(before.blocks@, self.blocks@, link.block_slots())
        &&& after.textures@ == filled_seq(before.textures@, self.textures@, link.texture_slots())
    }

    fn create_link(this: Option<&ParamDictionary>, info: &ProgramInfo) -> (r: Result<
        ParamDictionaryLink,
        ParameterError,
    >) {
        let d = match this {
            Some(d) => d,
            None => return Err(ParameterError::MissingSelf),
        };
        let uniforms = match resolve(&d.uniforms, &info.uniforms) {
            Ok(slots) => slots,
            Err(k) => return Err(ParameterError::MissingUniform(info.uniforms[k].name.clone())),
        };
        let blocks = match resolve(&d.blocks, &info.blocks) {
            Ok(slots) => slots,
            Err(k) => return Err(ParameterError::MissingBlock(info.blocks[k].name.clone())),
        };
        let textures = match resolve(&d.textures, &info.textures) {
            Ok(slots) => slots,
            Err(k) => return Err(ParameterError::MissingTexture(info.textures[k].name.clone())),
        };
        Ok(ParamDictionaryLink { uniforms, blocks, textures })
    }

    fn fill_params(&self, link: &ParamDictionaryLink, storage: &mut ParamStorage) {
        fill_slots(&self.uniforms, &link.uniforms, &mut storage.uniforms);
        fill_slots(&self.blocks, &link.blocks, &mut storage.blocks);
        fill_slots(&self.textures, &link.textures, &mut storage.textures);
    }
}

} // verus!
