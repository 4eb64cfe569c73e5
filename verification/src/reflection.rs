//! What the shader program declares: its uniforms and its blocks.
//!
//! Reflection data is produced by program introspection elsewhere; the
//! binding pass only reads it, classifying each caller-supplied name as a
//! plain uniform, a uniform block, a shared-storage block, or unknown.

use vstd::prelude::*;
use vstd::string::StrSliceExecFns;
use crate::values::UniformType;

verus! {

/// A reflected plain uniform: its declared type, its location, and its array
/// size. An array size must be absent — uniform arrays are unsupported.
#[derive(Clone, Copy, PartialEq, Eq, Structural, Debug)]
pub struct ReflectedUniform {
    pub ty: UniformType,
    pub location: i32,
    pub size: Option<u32>,
}

/// A reflected uniform block or shared-storage block: the program-side
/// binding index and the memory layout the block expects of its buffer.
#[derive(Clone, Copy, PartialEq, Eq, Structural, Debug)]
pub struct UniformBlock {
    pub binding: u32,
    pub layout: u64,
}

/// The first uniform entry named `name`, if any.
pub open spec fn lookup_uniform(
    entries: Seq<(String, ReflectedUniform)>,
    name: Seq<char>,
) -> Option<ReflectedUniform>
    decreases entries.len(),
{
    if entries.len() == 0 {
        None
    } else if entries[0].0@ == name {
        Some(entries[0].1)
    } else {
        lookup_uniform(entries.drop_first(), name)
    }
}

/// The first block entry named `name`, if any.
pub open spec fn lookup_block(
    entries: Seq<(String, UniformBlock)>,
    name: Seq<char>,
) -> Option<UniformBlock>
    decreases entries.len(),
{
    if entries.len() == 0 {
        None
    } else if entries[0].0@ == name {
        Some(entries[0].1)
    } else {
        lookup_block(entries.drop_first(), name)
    }
}

/// A uniform lookup hit returns the reflected uniform of some entry with the
/// looked-up name.
pub proof fn lemma_lookup_uniform_entry(
    entries: Seq<(String, ReflectedUniform)>,
    name: Seq<char>,
)
    ensures
        match lookup_uniform(entries, name) {
            Some(u) => exists|i: int|
                0 <= i < entries.len() && (#[trigger] entries[i]).0@ == name && entries[i].1 == u,
            None => true,
        },
    decreases entries.len(),
{
    if entries.len() > 0 && entries[0].0@ != name {
        lemma_lookup_uniform_entry(entries.drop_first(), name);
        match lookup_uniform(entries.drop_first(), name) {
            Some(u) => {
                let i = choose|i: int|
                    0 <= i < entries.drop_first().len()
                        && (#[trigger] entries.drop_first()[i]).0@ == name
                        && entries.drop_first()[i].1 == u;
                assert(entries[i + 1].0@ == name && entries[i + 1].1 == u);
            },
            None => {},
        }
    }
}

/// Whether two string slices hold the same characters.
pub fn str_eq(a: &str, b: &str) -> (r: bool)
    ensures
        r == (a@ == b@),
{
    let la = a.unicode_len();
    let lb = b.unicode_len();
    if la != lb {
        return false;
    }
    let mut i: usize = 0;
    while i < la
        invariant
            la == a@.len(),
            la == b@.len(),
            i <= la,
            forall|j: int| 0 <= j < i ==> a@[j] == b@[j],
        decreases la - i,
    {
        if a.get_char(i) != b.get_char(i) {
            return false;
        }
        i = i + 1;
    }
    proof {
        assert(a@ =~= b@);
    }
    true
}

/// The uniforms and blocks one program declares.
pub struct ProgramReflection {
    /// Plain uniforms by name.
    pub uniforms: Vec<(String, ReflectedUniform)>,
    /// Uniform blocks by name.
    pub uniform_blocks: Vec<(String, UniformBlock)>,
    /// Shared-storage blocks by name.
    pub shared_storage_blocks: Vec<(String, UniformBlock)>,
}

impl ProgramReflection {
    /// Reflected locations are never negative.
    pub open spec fn wf(&self) -> bool {
        forall|i: int| 0 <= i < self.uniforms@.len()
            ==> (#[trigger] self.uniforms@[i]).1.location >= 0
    }

    /// The reflected plain uniform called `name`, if the program has one.
    pub fn get_uniform(&self, name: &str) -> (r: Option<ReflectedUniform>)
        ensures
            r == lookup_uniform(self.uniforms@, name@),
    {
        let n = self.uniforms.len();
        proof {
            assert(self.uniforms@.skip(0) =~= self.uniforms@);
        }
        let mut i: usize = 0;
        while i < n
            invariant
                n == self.uniforms@.len(),
                i <= n,
                lookup_uniform(self.uniforms@, name@)
                    == lookup_uniform(self.uniforms@.skip(i as int), name@),
            decreases n - i,
        {
            proof {
                assert(self.uniforms@.skip(i as int)[0] == self.uniforms@[i as int]);
                assert(self.uniforms@.skip(i as int).drop_first()
                    =~= self.uniforms@.skip(i as int + 1));
            }
            if str_eq(self.uniforms[i].0.as_str(), name) {
                return Some(self.uniforms[i].1);
            }
            i = i + 1;
        }
        proof {
            assert(self.uniforms@.skip(n as int) =~= Seq::<(String, ReflectedUniform)>::empty());
        }
        None
    }

    /// The reflected uniform block called `name`, if the program has one.
    pub fn get_uniform_block(&self, name: &str) -> (r: Option<UniformBlock>)
        ensures
            r == lookup_block(self.uniform_blocks@, name@),
    {
        lookup_block_exec(&self.uniform_blocks, name)
    }

    /// The reflected shared-storage block called `name`, if the program has
    /// one.
    pub fn get_shader_storage_block(&self, name: &str) -> (r: Option<UniformBlock>)
        ensures
            r == lookup_block(self.shared_storage_blocks@, name@),
    {
        lookup_block_exec(&self.shared_storage_blocks, name)
    }
}

/// Linear search through a block table by name.
fn lookup_block_exec(entries: &Vec<(String, UniformBlock)>, name: &str) -> (r: Option<
    UniformBlock,
>)
    ensures
        r == lookup_block(entries@, name@),
{
    let n = entries.len();
    proof {
        assert(entries@.skip(0) =~= entries@);
    }
    let mut i: usize = 0;
    while i < n
        invariant
            n == entries@.len(),
            i <= n,
            lookup_block(entries@, name@) == lookup_block(entries@.skip(i as int), name@),
        decreases n - i,
    {
        proof {
            assert(entries@.skip(i as int)[0] == entries@[i as int]);
            assert(entries@.skip(i as int).drop_first() =~= entries@.skip(i as int + 1));
        }
        if str_eq(entries[i].0.as_str(), name) {
            return Some(entries[i].1);
        }
        i = i + 1;
    }
    proof {
        assert(entries@.skip(n as int) =~= Seq::<(String, UniformBlock)>::empty());
    }
    None
}

} // verus!
