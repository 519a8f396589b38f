use vstd::prelude::*;
use crate::error::Error;
use crate::shader::{Program, Shader};
use crate::stage::{lemma_extension_names_stage, ShaderStage};

verus! {

/// What the caller reports back after carrying out a `LoadAction`.
pub enum LoadEvent {
    /// The resource loader could not provide the requested source.
    LoadFailed(String),
    /// The source was loaded and compiling it went as given.
    Compiled(Result<Shader, String>),
    /// Linking the held shaders went as given.
    Linked(Result<Program, String>),
}

/// What the caller is to do next while loading a program.
pub enum LoadAction {
    /// Load resource `resource` and compile it as a shader of `stage`.
    Compile { resource: String, stage: ShaderStage },
    /// Link a new program from the shader objects `shaders`.
    Link { shaders: Vec<u32> },
    /// The load is over: release each shader of `release`, and hand on `outcome`.
    Finish { release: Vec<Shader>, outcome: Result<Program, Error> },
}

impl LoadAction {
    /// Whether this finishes the load, releasing exactly the shaders `held`.
    pub open spec fn releases(self, held: Seq<Shader>) -> bool {
        match self {
            LoadAction::Finish { release, .. } => release@ == held,
            _ => false,
        }
    }

    /// What this finishes the load with, if it does so.
    pub open spec fn outcome(self) -> Option<Result<Program, Error>> {
        match self {
            LoadAction::Finish { outcome, .. } => Some(outcome),
            _ => None,
        }
    }

    /// The error this finishes the load with, if it does so.
    pub open spec fn failure(self) -> Option<Error> {
        match self {
            LoadAction::Finish { outcome: Err(e), .. } => Some(e),
            _ => None,
        }
    }
}

/// The stage whose source is loaded after `k` shaders have compiled.
pub open spec fn stage_at(k: int) -> ShaderStage {
    if k == 0 {
        ShaderStage::Vertex
    } else {
        ShaderStage::Fragment
    }
}

/// Loading the program named `name` from `name.vert` and `name.frag`: the
/// vertex source first, then the fragment source, then the link, stopping
/// at the first failure.
pub struct ProgramLoad {
    name: String,
    held: Vec<Shader>,
    finished: bool,
}

impl ProgramLoad {
    pub closed spec fn spec_name(&self) -> Seq<char> {
        self.name@
    }

    /// The compiled shaders that the load holds until it finishes.
    pub closed spec fn held(&self) -> Seq<Shader> {
        self.held@
    }

    pub closed spec fn is_finished(&self) -> bool {
        self.finished
    }

    pub open spec fn wf(&self) -> bool {
        &&& self.held().len() <= 2
        &&& self.is_finished() ==> self.held().len() == 0
    }

    /// The resource whose source is loaded after `k` shaders have compiled.
    pub open spec fn resource_at(&self, k: int) -> Seq<char> {
        self.spec_name() + stage_at(k).spec_extension()
    }

    /// Whether `ev` answers the action that the load last asked for.
    pub open spec fn accepts_spec(&self, ev: &LoadEvent) -> bool {
        &&& !self.is_finished()
        &&& match ev {
            LoadEvent::Linked(_) => self.held().len() == 2,
            _ => self.held().len() < 2,
        }
    }

    pub fn accepts(&self, ev: &LoadEvent) -> (r: bool)
        ensures
            r == self.accepts_spec(ev),
    {
        !self.finished && match ev {
            LoadEvent::Linked(_) => self.held.len() == 2,
            _ => self.held.len() < 2,
        }
    }

    pub fn is_done(&self) -> (r: bool)
        ensures
            r == self.is_finished(),
    {
        self.finished
    }

    /// Begins loading program `name`: the first thing to do is to compile its
    /// vertex source.
    pub fn start(name: &str) -> (r: (ProgramLoad, LoadAction))
        ensures
            r.0.wf(),
            r.0.spec_name() == name@,
            r.0.held() == Seq::<Shader>::empty(),
            !r.0.is_finished(),
            r.1 matches LoadAction::Compile { resource, stage } && resource@ == r.0.resource_at(0)
                && stage == ShaderStage::Vertex,
    {
        let load = ProgramLoad { name: name.to_owned(), held: Vec::new(), finished: false };
        let action = load.compile_next();
        (load, action)
    }

    fn compile_next(&self) -> (r: LoadAction)
        requires
            self.held().len() < 2,
        ensures
            r matches LoadAction::Compile { resource, stage } && resource@ == self.resource_at(
                self.held().len() as int,
            ) && stage == stage_at(self.held().len() as int),
    {
        let names = Program::resource_names(self.name.as_str());
        let k = self.held.len();
        let resource = names[k].clone();
        proof {
            lemma_extension_names_stage(self.name@, stage_at(k as int));
        }
        match Shader::stage_for_resource(resource.as_str()) {
            Ok(stage) => LoadAction::Compile { resource, stage },
            Err(error) => LoadAction::Finish { release: Vec::new(), outcome: Err(error) },
        }
    }

    fn finish(&mut self, outcome: Result<Program, Error>) -> (r: LoadAction)
        requires
            old(self).wf(),
        ensures
            final(self).wf(),
            final(self).is_finished(),
            final(self).spec_name() == old(self).spec_name(),
            r.releases(old(self).held()),
            r.outcome() == Some(outcome),
    {
        let mut release: Vec<Shader> = Vec::new();
        std::mem::swap(&mut self.held, &mut release);
        self.finished = true;
        LoadAction::Finish { release, outcome }
    }

    /// Takes in the outcome of the last action and says what to do next.
    /// Every `Finish` hands back exactly the shaders the load held, after which
    /// it holds none: each compiled shader is released once, whatever failed.
    pub fn step(&mut self, ev: LoadEvent) -> (r: LoadAction)
        requires
            old(self).wf(),
            old(self).accepts_spec(&ev),
        ensures
            final(self).wf(),
            final(self).spec_name() == old(self).spec_name(),
            ev matches LoadEvent::LoadFailed(inner) ==> final(self).is_finished() && (r.releases(old(self).held())
                && (r.failure() matches Some(e) && e.is_resource_load(
                old(self).resource_at(old(self).held().len() as int),
                inner@,
            ))),
            ev matches LoadEvent::Compiled(Err(m)) ==> final(self).is_finished() && (r.releases(old(self).held())
                && (r.failure() matches Some(e) && e.is_compile_error(
                old(self).resource_at(old(self).held().len() as int),
                m@,
            ))),
            ev matches LoadEvent::Compiled(Ok(s)) ==> !final(self).is_finished() && final(self).held()
                == old(self).held().push(s),
            ev matches LoadEvent::Compiled(Ok(s)) && old(self).held().len() == 0 ==> (r matches LoadAction::Compile { resource, stage }
                && resource@ == old(self).resource_at(1) && stage == ShaderStage::Fragment),
            ev matches LoadEvent::Compiled(Ok(s)) && old(self).held().len() == 1 ==> (r matches LoadAction::Link { shaders }
                && shaders@ == final(self).held().map_values(|s: Shader| s.spec_id())),
            ev matches LoadEvent::Linked(Ok(p)) ==> (final(self).is_finished() && r.releases(old(self).held())
                && r.outcome() == Some(Ok::<Program, Error>(p))),
            ev matches LoadEvent::Linked(Err(m)) ==> final(self).is_finished() && (r.releases(old(self).held())
                && (r.failure() matches Some(e) && e.is_link_error(
                old(self).spec_name(),
                m@,
            ))),
    {
        match ev {
            LoadEvent::LoadFailed(inner) => {
                let names = Program::resource_names(self.name.as_str());
                let error = Error::resource_load(names[self.held.len()].as_str(), inner);
                self.finish(Err(error))
            },
            LoadEvent::Compiled(compiled) => {
                let names = Program::resource_names(self.name.as_str());
                match Shader::from_res(names[self.held.len()].as_str(), compiled) {
                    Err(error) => self.finish(Err(error)),
                    Ok(shader) => {
                        self.held.push(shader);
                        if self.held.len() < 2 {
                            self.compile_next()
                        } else {
                            LoadAction::Link { shaders: self.held_ids() }
                        }
                    },
                }
            },
            LoadEvent::Linked(linked) => {
                let outcome = Program::from_res(self.name.as_str(), linked);
                self.finish(outcome)
            },
        }
    }

    fn held_ids(&self) -> (r: Vec<u32>)
        ensures
            r@ == self.held().map_values(|s: Shader| s.spec_id()),
    {
        let mut ids: Vec<u32> = Vec::new();
        let mut i: usize = 0;
        while i < self.held.len()
            invariant
                i <= self.held@.len(),
                ids@ == self.held@.take(i as int).map_values(|s: Shader| s.spec_id()),
            decreases self.held@.len() - i,
        {
            ids.push(self.held[i].id());
            i += 1;
            assert(ids@ =~= self.held@.take(i as int).map_values(|s: Shader| s.spec_id()));
        }
        assert(self.held@.take(i as int) =~= self.held@);
        ids
    }
}

} // verus!
