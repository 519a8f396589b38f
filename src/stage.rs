use vstd::prelude::*;
use vstd::string::StrSliceExecFns;

verus! {

/// The driver's code for a vertex shader object.
pub const GL_VERTEX_SHADER: u32 = 0x8B31;

/// The driver's code for a fragment shader object.
pub const GL_FRAGMENT_SHADER: u32 = 0x8B30;

/// The pipeline role that one compiled shader object fills.
#[derive(Clone, Copy, Debug, PartialEq, Eq, Structural)]
pub enum ShaderStage {
    Vertex,
    Fragment,
}

/// Whether `suffix` is a suffix of `s`.
pub open spec fn has_suffix(s: Seq<char>, suffix: Seq<char>) -> bool {
    suffix.len() <= s.len() && s.subrange(s.len() - suffix.len(), s.len() as int) == suffix
}

impl ShaderStage {
    pub open spec fn spec_gl_kind(self) -> u32 {
        match self {
            ShaderStage::Vertex => GL_VERTEX_SHADER,
            ShaderStage::Fragment => GL_FRAGMENT_SHADER,
        }
    }

    /// The file extension, dot included, that names a resource of this stage.
    pub open spec fn spec_extension(self) -> Seq<char> {
        match self {
            ShaderStage::Vertex => seq!['.', 'v', 'e', 'r', 't'],
            ShaderStage::Fragment => seq!['.', 'f', 'r', 'a', 'g'],
        }
    }

    /// The stage that a resource name announces by its suffix, if any.
    pub open spec fn of_name(name: Seq<char>) -> Option<ShaderStage> {
        if has_suffix(name, ShaderStage::Vertex.spec_extension()) {
            Some(ShaderStage::Vertex)
        } else if has_suffix(name, ShaderStage::Fragment.spec_extension()) {
            Some(ShaderStage::Fragment)
        } else {
            None
        }
    }

    /// The shader-object kind to hand the driver for this stage.
    pub fn gl_kind(&self) -> (r: u32)
        ensures
            r == self.spec_gl_kind(),
    {
        match self {
            ShaderStage::Vertex => GL_VERTEX_SHADER,
            ShaderStage::Fragment => GL_FRAGMENT_SHADER,
        }
    }

    pub fn extension(&self) -> (r: &'static str)
        ensures
            r@ == self.spec_extension(),
    {
        match self {
            ShaderStage::Vertex => {
                proof {
                    reveal_strlit(".vert");
                }
                ".vert"
            },
            ShaderStage::Fragment => {
                proof {
                    reveal_strlit(".frag");
                }
                ".frag"
            },
        }
    }

    /// Infers the stage from the suffix of a resource name.
    pub fn from_resource_name(name: &str) -> (r: Option<ShaderStage>)
        ensures
            r == ShaderStage::of_name(name@),
    {
        if ends_with(name, ShaderStage::Vertex.extension()) {
            Some(ShaderStage::Vertex)
        } else if ends_with(name, ShaderStage::Fragment.extension()) {
            Some(ShaderStage::Fragment)
        } else {
            None
        }
    }
}

/// The resource name built from a base name and a stage's extension is read
/// back as that stage, whatever the base name.
pub proof fn lemma_extension_names_stage(base: Seq<char>, st: ShaderStage)
    ensures
        ShaderStage::of_name(base + st.spec_extension()) == Some(st),
{
    let name = base + st.spec_extension();
    let n = name.len();
    assert(name.subrange(n - 5, n as int) =~= st.spec_extension());
    if st == ShaderStage::Fragment {
        assert(name[n - 1] == 'g');
        assert(name.subrange(n - 5, n as int)[4] != ShaderStage::Vertex.spec_extension()[4]);
    }
}

fn ends_with(s: &str, suffix: &str) -> (r: bool)
    ensures
        r == has_suffix(s@, suffix@),
{
    let n = s.unicode_len();
    let m = suffix.unicode_len();
    if m > n {
        return false;
    }
    let off: usize = n - m;
    let mut i: usize = 0;
    while i < m
        invariant
            i <= m,
            m == suffix@.len(),
            n == s@.len(),
            off + m == n,
            forall|j: int| 0 <= j < i ==> s@[off + j] == suffix@[j],
        decreases m - i,
    {
        if s.get_char(off + i) != suffix.get_char(i) {
            assert(s@.subrange(off as int, n as int)[i as int] != suffix@[i as int]);
            return false;
        }
        i += 1;
    }
    assert(s@.subrange(off as int, n as int) =~= suffix@);
    true
}

} // verus!
