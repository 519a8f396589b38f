use vstd::prelude::*;
use crate::text::{name_in, utf8_lossy};

verus! {

/// The declared type of a uniform, as the driver reports it.
#[derive(Clone, Copy, Debug, PartialEq, Eq, Structural)]
pub enum UniformType {
    Float,
    FloatVec2,
    FloatVec3,
    FloatVec4,
    Int,
    IntVec2,
    IntVec3,
    IntVec4,
    UnsignedInt,
    Bool,
    FloatMat2,
    FloatMat3,
    FloatMat4,
    Sampler2D,
    Sampler3D,
    SamplerCube,
    /// A type code outside the ones named above, kept as the driver gave it.
    Other(u32),
}

impl UniformType {
    /// The driver's code for this type.
    pub open spec fn spec_code(self) -> u32 {
        match self {
            UniformType::Float => 0x1406,
            UniformType::FloatVec2 => 0x8B50,
            UniformType::FloatVec3 => 0x8B51,
            UniformType::FloatVec4 => 0x8B52,
            UniformType::Int => 0x1404,
            UniformType::IntVec2 => 0x8B53,
            UniformType::IntVec3 => 0x8B54,
            UniformType::IntVec4 => 0x8B55,
            UniformType::UnsignedInt => 0x1405,
            UniformType::Bool => 0x8B56,
            UniformType::FloatMat2 => 0x8B5A,
            UniformType::FloatMat3 => 0x8B5B,
            UniformType::FloatMat4 => 0x8B5C,
            UniformType::Sampler2D => 0x8B5E,
            UniformType::Sampler3D => 0x8B5F,
            UniformType::SamplerCube => 0x8B60,
            UniformType::Other(c) => c,
        }
    }

    /// The type that a driver code stands for.
    pub open spec fn of_code(c: u32) -> UniformType {
        if c == 0x1406 {
            UniformType::Float
        } else if c == 0x8B50 {
            UniformType::FloatVec2
        } else if c == 0x8B51 {
            UniformType::FloatVec3
        } else if c == 0x8B52 {
            UniformType::FloatVec4
        } else if c == 0x1404 {
            UniformType::Int
        } else if c == 0x8B53 {
            UniformType::IntVec2
        } else if c == 0x8B54 {
            UniformType::IntVec3
        } else if c == 0x8B55 {
            UniformType::IntVec4
        } else if c == 0x1405 {
            UniformType::UnsignedInt
        } else if c == 0x8B56 {
            UniformType::Bool
        } else if c == 0x8B5A {
            UniformType::FloatMat2
        } else if c == 0x8B5B {
            UniformType::FloatMat3
        } else if c == 0x8B5C {
            UniformType::FloatMat4
        } else if c == 0x8B5E {
            UniformType::Sampler2D
        } else if c == 0x8B5F {
            UniformType::Sampler3D
        } else if c == 0x8B60 {
            UniformType::SamplerCube
        } else {
            UniformType::Other(c)
        }
    }

    /// `Other` never carries a code that one of the named variants stands for.
    pub open spec fn wf(self) -> bool {
        match self {
            UniformType::Other(c) => UniformType::of_code(c) is Other,
            _ => true,
        }
    }

    /// Decodes a type code reported by the driver.
    pub fn from_gl(c: u32) -> (r: UniformType)
        ensures
            r == UniformType::of_code(c),
            r.wf(),
    {
        if c == 0x1406 {
            UniformType::Float
        } else if c == 0x8B50 {
            UniformType::FloatVec2
        } else if c == 0x8B51 {
            UniformType::FloatVec3
        } else if c == 0x8B52 {
            UniformType::FloatVec4
        } else if c == 0x1404 {
            UniformType::Int
        } else if c == 0x8B53 {
            UniformType::IntVec2
        } else if c == 0x8B54 {
            UniformType::IntVec3
        } else if c == 0x8B55 {
            UniformType::IntVec4
        } else if c == 0x1405 {
            UniformType::UnsignedInt
        } else if c == 0x8B56 {
            UniformType::Bool
        } else if c == 0x8B5A {
            UniformType::FloatMat2
        } else if c == 0x8B5B {
            UniformType::FloatMat3
        } else if c == 0x8B5C {
            UniformType::FloatMat4
        } else if c == 0x8B5E {
            UniformType::Sampler2D
        } else if c == 0x8B5F {
            UniformType::Sampler3D
        } else if c == 0x8B60 {
            UniformType::SamplerCube
        } else {
            UniformType::Other(c)
        }
    }

    /// The driver's code for this type.
    pub fn gl_code(&self) -> (r: u32)
        ensures
            r == self.spec_code(),
    {
        match self {
            UniformType::Float => 0x1406,
            UniformType::FloatVec2 => 0x8B50,
            UniformType::FloatVec3 => 0x8B51,
            UniformType::FloatVec4 => 0x8B52,
            UniformType::Int => 0x1404,
            UniformType::IntVec2 => 0x8B53,
            UniformType::IntVec3 => 0x8B54,
            UniformType::IntVec4 => 0x8B55,
            UniformType::UnsignedInt => 0x1405,
            UniformType::Bool => 0x8B56,
            UniformType::FloatMat2 => 0x8B5A,
            UniformType::FloatMat3 => 0x8B5B,
            UniformType::FloatMat4 => 0x8B5C,
            UniformType::Sampler2D => 0x8B5E,
            UniformType::Sampler3D => 0x8B5F,
            UniformType::SamplerCube => 0x8B60,
            UniformType::Other(c) => *c,
        }
    }
}

/// Decoding a driver type code loses nothing: encoding the decoded type gives
/// the code back.
pub proof fn lemma_type_code_round_trip(c: u32)
    ensures
        UniformType::of_code(c).spec_code() == c,
        UniformType::of_code(c).wf(),
{
}

/// Every well-formed type is what its own code decodes to.
pub proof fn lemma_type_decode_round_trip(t: UniformType)
    requires
        t.wf(),
    ensures
        UniformType::of_code(t.spec_code()) == t,
{
}

/// What the table holds of one uniform: where it is, and what type it has.
#[derive(Clone, Copy, Debug, PartialEq, Eq, Structural)]
pub struct Uniform {
    /// The location the driver assigned; -1 for a uniform it optimised away.
    pub location: i32,
    pub typ: UniformType,
}

/// No name occurs twice.
pub open spec fn names_unique(s: Seq<(String, Uniform)>) -> bool {
    forall|i: int, j: int| 0 <= i < j < s.len() ==> s[i].0@ != s[j].0@
}

/// The map that inserting the entries of `s` in order builds.
pub open spec fn entries_map(s: Seq<(String, Uniform)>) -> Map<Seq<char>, Uniform>
    decreases s.len(),
{
    if s.len() == 0 {
        Map::empty()
    } else {
        entries_map(s.drop_last()).insert(s.last().0@, s.last().1)
    }
}

proof fn lemma_entries_map_has(s: Seq<(String, Uniform)>, i: int)
    requires
        names_unique(s),
        0 <= i < s.len(),
    ensures
        entries_map(s).contains_key(s[i].0@),
        entries_map(s)[s[i].0@] == s[i].1,
    decreases s.len(),
{
    if i < s.len() - 1 {
        lemma_entries_map_has(s.drop_last(), i);
    }
}

proof fn lemma_entries_map_lacks(s: Seq<(String, Uniform)>, k: Seq<char>)
    requires
        forall|i: int| 0 <= i < s.len() ==> s[i].0@ != k,
    ensures
        !entries_map(s).contains_key(k),
    decreases s.len(),
{
    if s.len() > 0 {
        lemma_entries_map_lacks(s.drop_last(), k);
    }
}

proof fn lemma_entries_map_update(s: Seq<(String, Uniform)>, i: int, p: (String, Uniform))
    requires
        names_unique(s),
        0 <= i < s.len(),
        s[i].0@ == p.0@,
    ensures
        entries_map(s.update(i, p)) == entries_map(s).insert(p.0@, p.1),
    decreases s.len(),
{
    let t = s.update(i, p);
    if i == s.len() - 1 {
        assert(t.drop_last() =~= s.drop_last());
        assert(entries_map(t) =~= entries_map(s).insert(p.0@, p.1));
    } else {
        lemma_entries_map_update(s.drop_last(), i, p);
        assert(t.drop_last() =~= s.drop_last().update(i, p));
        assert(entries_map(t) =~= entries_map(s).insert(p.0@, p.1));
    }
}

proof fn lemma_entries_map_len(s: Seq<(String, Uniform)>)
    requires
        names_unique(s),
    ensures
        entries_map(s).dom().finite(),
        entries_map(s).dom().len() == s.len(),
    decreases s.len(),
{
    if s.len() > 0 {
        let t = s.drop_last();
        lemma_entries_map_len(t);
        lemma_entries_map_lacks(t, s.last().0@);
    }
}

/// The active uniforms of a linked program, by name.
pub struct UniformTable {
    entries: Vec<(String, Uniform)>,
}

impl View for UniformTable {
    type V = Map<Seq<char>, Uniform>;

    closed spec fn view(&self) -> Map<Seq<char>, Uniform> {
        entries_map(self.entries@)
    }
}

impl UniformTable {
    pub closed spec fn wf(&self) -> bool {
        names_unique(self.entries@)
    }

    pub fn new() -> (r: UniformTable)
        ensures
            r.wf(),
            r@ == Map::<Seq<char>, Uniform>::empty(),
    {
        UniformTable { entries: Vec::new() }
    }

    fn find(&self, name: &String) -> (r: Option<usize>)
        requires
            self.wf(),
        ensures
            r matches Some(i) ==> i < self.entries@.len() && self.entries@[i as int].0@ == name@,
            r is None ==> !self@.contains_key(name@),
            r is None ==> forall|j: int| 0 <= j < self.entries@.len() ==> self.entries@[j].0@ != name@,
    {
        let mut i: usize = 0;
        while i < self.entries.len()
            invariant
                i <= self.entries@.len(),
                forall|j: int| 0 <= j < i ==> self.entries@[j].0@ != name@,
            decreases self.entries@.len() - i,
        {
            if self.entries[i].0 == *name {
                return Some(i);
            }
            i += 1;
        }
        proof {
            lemma_entries_map_lacks(self.entries@, name@);
        }
        None
    }

    /// The entry for `name`, if the table has one.
    pub fn get(&self, name: &str) -> (r: Option<Uniform>)
        requires
            self.wf(),
        ensures
            r == (if self@.contains_key(name@) {
                Some(self@[name@])
            } else {
                None
            }),
    {
        let key = name.to_owned();
        match self.find(&key) {
            Some(i) => {
                proof {
                    lemma_entries_map_has(self.entries@, i as int);
                }
                Some(self.entries[i].1)
            },
            None => None,
        }
    }

    /// Records `u` under `name`, replacing what stood there.
    pub fn insert(&mut self, name: String, u: Uniform)
        requires
            old(self).wf(),
        ensures
            final(self).wf(),
            final(self)@ == old(self)@.insert(name@, u),
    {
        match self.find(&name) {
            Some(i) => {
                proof {
                    lemma_entries_map_update(self.entries@, i as int, (name, u));
                }
                self.entries.set(i, (name, u));
            },
            None => {
                let ghost before = self.entries@;
                self.entries.push((name, u));
                assert(self.entries@.drop_last() =~= before);
            },
        }
    }

    /// The number of uniforms in the table.
    pub fn len(&self) -> (r: usize)
        requires
            self.wf(),
        ensures
            self@.dom().finite(),
            r == self@.dom().len(),
    {
        proof {
            lemma_entries_map_len(self.entries@);
        }
        self.entries.len()
    }

    pub fn is_empty(&self) -> (r: bool)
        requires
            self.wf(),
        ensures
            r == (self@ == Map::<Seq<char>, Uniform>::empty()),
    {
        proof {
            lemma_entries_map_len(self.entries@);
            if self.entries@.len() > 0 {
                assert(self@.dom().len() > 0);
                assert(self@ != Map::<Seq<char>, Uniform>::empty());
            } else {
                assert(self@ =~= Map::<Seq<char>, Uniform>::empty());
            }
        }
        self.entries.len() == 0
    }
}

/// One active uniform as the driver reports it: the name buffer it wrote,
/// the name length it gave, the array size, the type code, and the location
/// that a lookup by that name returned.
#[derive(Clone, Debug)]
pub struct ActiveUniform {
    pub name: Vec<u8>,
    pub name_len: i32,
    pub size: i32,
    pub type_code: u32,
    pub location: i32,
}

/// The name under which a reported uniform is recorded.
pub open spec fn reflected_name(a: ActiveUniform) -> Seq<char> {
    utf8_lossy(name_in(a.name@, a.name_len))
}

/// What the table records of a reported uniform.
pub open spec fn reflected_entry(a: ActiveUniform) -> Uniform {
    Uniform { location: a.location, typ: UniformType::of_code(a.type_code) }
}

/// The table that reflecting the reported uniforms, in order, builds.
pub open spec fn reflected(s: Seq<ActiveUniform>) -> Map<Seq<char>, Uniform>
    decreases s.len(),
{
    if s.len() == 0 {
        Map::empty()
    } else {
        reflected(s.drop_last()).insert(reflected_name(s.last()), reflected_entry(s.last()))
    }
}

/// Reflection finds a uniform exactly when the driver reports one: the table is
/// empty if and only if the list of active uniforms is.
pub proof fn lemma_reflected_empty_iff(s: Seq<ActiveUniform>)
    ensures
        (reflected(s) == Map::<Seq<char>, Uniform>::empty()) == (s.len() == 0),
{
    if s.len() > 0 {
        let k = reflected_name(s.last());
        assert(reflected(s).contains_key(k));
        assert(!Map::<Seq<char>, Uniform>::empty().contains_key(k));
    }
}

} // verus!
