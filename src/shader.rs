use vstd::prelude::*;
use crate::error::Error;
use crate::stage::ShaderStage;
use crate::text::{before_nul, decode_name, lossy_text, text_before_nul, utf8_lossy};
use crate::uniform::{
    lemma_reflected_empty_iff, reflected, reflected_entry, reflected_name, ActiveUniform, Uniform,
    UniformTable, UniformType,
};

verus! {

/// The text of a diagnostic log that the driver wrote into `buf`.
pub open spec fn log_text(buf: Seq<u8>) -> Seq<char> {
    utf8_lossy(before_nul(buf))
}

/// Turns a log buffer filled by the driver into its text.
fn driver_log(buf: &Vec<u8>) -> (r: String)
    ensures
        r@ == log_text(buf@),
{
    let text = text_before_nul(buf);
    lossy_text(&text)
}

/// One compiled shader object of one stage.
pub struct Shader {
    id: u32,
    stage: ShaderStage,
}

impl Shader {
    pub closed spec fn spec_id(&self) -> u32 {
        self.id
    }

    pub closed spec fn spec_stage(&self) -> ShaderStage {
        self.stage
    }

    /// Settles the compilation of shader object `id` from the status the driver
    /// reported: the shader when it is non-zero, else the log the driver wrote
    /// into `log`. On failure the caller still owns `id` and deletes it.
    pub fn from_source(id: u32, stage: ShaderStage, status: i32, log: &Vec<u8>) -> (r: Result<
        Shader,
        String,
    >)
        ensures
            status != 0 ==> (r matches Ok(s) && s.spec_id() == id && s.spec_stage() == stage),
            status == 0 ==> (r matches Err(m) && m@ == log_text(log@)),
    {
        if status == 0 {
            Err(driver_log(log))
        } else {
            Ok(Shader { id, stage })
        }
    }

    pub fn from_vert_source(id: u32, status: i32, log: &Vec<u8>) -> (r: Result<Shader, String>)
        ensures
            status != 0 ==> (r matches Ok(s) && s.spec_id() == id && s.spec_stage()
                == ShaderStage::Vertex),
            status == 0 ==> (r matches Err(m) && m@ == log_text(log@)),
    {
        Shader::from_source(id, ShaderStage::Vertex, status, log)
    }

    pub fn from_frag_source(id: u32, status: i32, log: &Vec<u8>) -> (r: Result<Shader, String>)
        ensures
            status != 0 ==> (r matches Ok(s) && s.spec_id() == id && s.spec_stage()
                == ShaderStage::Fragment),
            status == 0 ==> (r matches Err(m) && m@ == log_text(log@)),
    {
        Shader::from_source(id, ShaderStage::Fragment, status, log)
    }

    /// The stage of resource `name`, read from its suffix.
    pub fn stage_for_resource(name: &str) -> (r: Result<ShaderStage, Error>)
        ensures
            ShaderStage::of_name(name@) matches Some(st) ==> r == Ok::<ShaderStage, Error>(st),
            ShaderStage::of_name(name@) is None ==> (r matches Err(e) && e.is_unknown_stage(
                name@,
            )),
    {
        match ShaderStage::from_resource_name(name) {
            Some(st) => Ok(st),
            None => Err(Error::CanNotDetermineShaderTypeForResource { name: name.to_owned() }),
        }
    }

    /// The shader loaded from resource `name`, given how compiling its source
    /// went: a compile failure is reported under the resource's name.
    pub fn from_res(name: &str, compiled: Result<Shader, String>) -> (r: Result<Shader, Error>)
        ensures
            compiled matches Ok(s) ==> r == Ok::<Shader, Error>(s),
            compiled matches Err(m) ==> (r matches Err(e) && e.is_compile_error(name@, m@)),
    {
        match compiled {
            Ok(s) => Ok(s),
            Err(message) => Err(Error::CompileError { name: name.to_owned(), message }),
        }
    }

    /// The driver's handle of this shader object.
    pub fn id(&self) -> (r: u32)
        ensures
            r == self.spec_id(),
    {
        self.id
    }

    pub fn stage(&self) -> (r: ShaderStage)
        ensures
            r == self.spec_stage(),
    {
        self.stage
    }

    /// Gives up the shader, handing back the handle for its one release.
    pub fn into_id(self) -> (r: u32)
        ensures
            r == self.spec_id(),
    {
        self.id
    }
}

/// One linked program and the table of its active uniforms.
pub struct Program {
    id: u32,
    uniforms: UniformTable,
}

impl Program {
    pub closed spec fn wf(&self) -> bool {
        self.uniforms.wf()
    }

    pub closed spec fn spec_id(&self) -> u32 {
        self.id
    }

    pub closed spec fn spec_uniforms(&self) -> Map<Seq<char>, Uniform> {
        self.uniforms@
    }

    /// The names of the two resources that hold the stages of program `name`.
    pub fn resource_names(name: &str) -> (r: Vec<String>)
        ensures
            r@.len() == 2,
            r@[0]@ == name@ + ShaderStage::Vertex.spec_extension(),
            r@[1]@ == name@ + ShaderStage::Fragment.spec_extension(),
    {
        let mut vert = name.to_owned();
        vert.append(ShaderStage::Vertex.extension());
        let mut frag = name.to_owned();
        frag.append(ShaderStage::Fragment.extension());
        let mut r: Vec<String> = Vec::new();
        r.push(vert);
        r.push(frag);
        r
    }

    /// Settles the linking of program object `id` from the status the driver
    /// reported: on success the program, with the table reflected from the
    /// uniforms the driver reported active; else the log it wrote into `log`.
    /// On failure the caller still owns `id` and deletes it.
    pub fn from_shaders(id: u32, status: i32, log: &Vec<u8>, active: &Vec<ActiveUniform>) -> (r:
        Result<Program, String>)
        ensures
            status != 0 ==> (r matches Ok(p) && p.wf() && p.spec_id() == id && p.spec_uniforms()
                == reflected(active@)),
            status == 0 ==> (r matches Err(m) && m@ == log_text(log@)),
    {
        if status == 0 {
            return Err(driver_log(log));
        }
        let uniforms = Program::get_uniforms(active);
        Ok(Program { id, uniforms })
    }

    /// The program loaded from resources `name.vert` and `name.frag`, given how
    /// linking went: a link failure is reported under the program's name.
    pub fn from_res(name: &str, linked: Result<Program, String>) -> (r: Result<Program, Error>)
        ensures
            linked matches Ok(p) ==> r == Ok::<Program, Error>(p),
            linked matches Err(m) ==> (r matches Err(e) && e.is_link_error(name@, m@)),
    {
        match linked {
            Ok(p) => Ok(p),
            Err(message) => Err(Error::LinkError { name: name.to_owned(), message }),
        }
    }

    /// Builds the uniform table from the uniforms the driver reports active,
    /// in the order it reports them.
    pub fn get_uniforms(active: &Vec<ActiveUniform>) -> (r: UniformTable)
        ensures
            r.wf(),
            r@ == reflected(active@),
            (r@ == Map::<Seq<char>, Uniform>::empty()) == (active@.len() == 0),
    {
        let mut table = UniformTable::new();
        let mut i: usize = 0;
        while i < active.len()
            invariant
                i <= active@.len(),
                table.wf(),
                table@ == reflected(active@.take(i as int)),
            decreases active@.len() - i,
        {
            let a = &active[i];
            let name_bytes = decode_name(&a.name, a.name_len);
            let name = lossy_text(&name_bytes);
            let typ = UniformType::from_gl(a.type_code);
            let u = Uniform { location: a.location, typ };
            table.insert(name, u);
            proof {
                assert(active@.take(i + 1).drop_last() =~= active@.take(i as int));
                assert(u == reflected_entry(active@[i as int]));
                assert(name@ == reflected_name(active@[i as int]));
            }
            i += 1;
        }
        assert(active@.take(active@.len() as int) =~= active@);
        proof {
            lemma_reflected_empty_iff(active@);
        }
        table
    }

    /// The driver's handle of this program object.
    pub fn id(&self) -> (r: u32)
        ensures
            r == self.spec_id(),
    {
        self.id
    }

    /// The table of active uniforms, built when the program was linked.
    pub fn uniforms(&self) -> (r: &UniformTable)
        requires
            self.wf(),
        ensures
            r.wf(),
            r@ == self.spec_uniforms(),
    {
        &self.uniforms
    }

    /// Where a value of type `typ` for uniform `name` is to be uploaded: the
    /// location recorded at reflection, which may be -1 for a uniform the driver
    /// optimised away. Fails for a name the table lacks, and for a type other
    /// than the declared one; on failure nothing is to be uploaded.
    pub fn uniform_target(&self, name: &str, typ: UniformType) -> (r: Result<i32, Error>)
        requires
            self.wf(),
        ensures
            !self.spec_uniforms().contains_key(name@) ==> (r matches Err(e)
                && e.is_unknown_uniform(name@)),
            self.spec_uniforms().contains_key(name@) && self.spec_uniforms()[name@].typ != typ
                ==> (r matches Err(e) && e.is_type_mismatch(
                name@,
                self.spec_uniforms()[name@].typ,
                typ,
            )),
            self.spec_uniforms().contains_key(name@) && self.spec_uniforms()[name@].typ == typ
                ==> r == Ok::<i32, Error>(self.spec_uniforms()[name@].location),
    {
        match self.uniforms.get(name) {
            None => Err(Error::UnknownUniform { name: name.to_owned() }),
            Some(u) => {
                if u.typ == typ {
                    Ok(u.location)
                } else {
                    Err(
                        Error::UniformTypeMismatch {
                            name: name.to_owned(),
                            declared: u.typ,
                            given: typ,
                        },
                    )
                }
            },
        }
    }

    /// The location to which a single float for uniform `name` is uploaded.
    pub fn set_uniform1f(&self, name: &str) -> (r: Result<i32, Error>)
        requires
            self.wf(),
        ensures
            !self.spec_uniforms().contains_key(name@) ==> (r matches Err(e)
                && e.is_unknown_uniform(name@)),
            self.spec_uniforms().contains_key(name@) && self.spec_uniforms()[name@].typ
                != UniformType::Float ==> (r matches Err(e) && e.is_type_mismatch(
                name@,
                self.spec_uniforms()[name@].typ,
                UniformType::Float,
            )),
            self.spec_uniforms().contains_key(name@) && self.spec_uniforms()[name@].typ
                == UniformType::Float ==> r == Ok::<i32, Error>(
                self.spec_uniforms()[name@].location,
            ),
    {
        self.uniform_target(name, UniformType::Float)
    }

    /// Gives up the program, handing back the handle for its one release.
    pub fn into_id(self) -> (r: u32)
        ensures
            r == self.spec_id(),
    {
        self.id
    }
}

} // verus!
