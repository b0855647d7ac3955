use vstd::prelude::*;

verus! {

/// A compiled and linked shader program, by the handle under which the
/// graphics driver knows it.
#[derive(Copy, Clone, Debug, PartialEq, Eq)]
pub struct ShaderProgram {
    pub id: u32,
}

impl ShaderProgram {
    pub fn new(id: u32) -> (r: Self)
        ensures
            r.id == id,
    {
        ShaderProgram { id }
    }

    /// The driver's handle of the program.
    pub fn id(&self) -> (r: u32)
        ensures
            r == self.id,
    {
        self.id
    }
}

/// The shader programs of a renderer, in the order in which they were
/// added, and which of them the driver has bound.
#[derive(Debug)]
pub struct ShaderSet {
    programs: Vec<ShaderProgram>,
    active: Option<usize>,
}

/// A shader set as plain values.
pub struct ShaderSetView {
    /// The programs, in the order in which they were added.
    pub programs: Seq<ShaderProgram>,
    /// The index of the bound program, if one is bound.
    pub active: Option<usize>,
}

impl ShaderSetView {
    /// The bound program is one of the set.
    pub open spec fn wf(self) -> bool {
        self.active matches Some(index) ==> index < self.programs.len()
    }

    /// The bound program, if one is bound.
    pub open spec fn active_program(self) -> Option<ShaderProgram> {
        match self.active {
            Some(index) => Some(self.programs[index as int]),
            None => None,
        }
    }

    /// Whether the program with the handle `id` is the bound one.
    pub open spec fn is_bound(self, id: u32) -> bool {
        self.active_program() matches Some(program) && program.id == id
    }

    /// The set after the program at `index` was asked for.
    pub open spec fn using(self, index: usize) -> Self {
        ShaderSetView { programs: self.programs, active: Some(index) }
    }

    /// The handle to bind when the program at `index` is asked for: none
    /// where that program is bound already.
    pub open spec fn to_bind(self, index: usize) -> Option<u32> {
        if self.active == Some(index) {
            None
        } else {
            Some(self.programs[index as int].id)
        }
    }
}

impl View for ShaderSet {
    type V = ShaderSetView;

    closed spec fn view(&self) -> ShaderSetView {
        ShaderSetView { programs: self.programs@, active: self.active }
    }
}

impl ShaderSet {
    /// The bound program is one of the set.
    pub open spec fn wf(&self) -> bool {
        self@.wf()
    }

    /// A set without programs; nothing is bound.
    pub fn new() -> (r: Self)
        ensures
            r@.programs.len() == 0,
            r@.active is None,
            r.wf(),
    {
        ShaderSet { programs: Vec::new(), active: None }
    }

    /// The number of programs.
    pub fn len(&self) -> (r: usize)
        ensures
            r == self@.programs.len(),
    {
        self.programs.len()
    }

    /// The program at `index`, or `None` where the set has fewer programs.
    pub fn get(&self, index: usize) -> (r: Option<&ShaderProgram>)
        ensures
            match r {
                Some(program) => index < self@.programs.len() && self@.programs[index as int]
                    == *program,
                None => index >= self@.programs.len(),
            },
    {
        if index < self.programs.len() {
            Some(&self.programs[index])
        } else {
            None
        }
    }

    /// Adds `program` behind the others and returns its index. What is
    /// bound stays bound.
    pub fn add(&mut self, program: ShaderProgram) -> (index: usize)
        requires
            old(self).wf(),
        ensures
            final(self).wf(),
            index == old(self)@.programs.len(),
            final(self)@.programs == old(self)@.programs.push(program),
            final(self)@.active == old(self)@.active,
    {
        let index = self.programs.len();
        self.programs.push(program);
        index
    }

    /// Makes the program at `index` the bound one. Returns the handle that
    /// the caller has to bind with the driver before it goes on, or `None`
    /// where that program is bound already.
    pub fn use_shader(&mut self, index: usize) -> (bind: Option<u32>)
        requires
            index < old(self)@.programs.len(),
        ensures
            final(self).wf(),
            final(self)@ == old(self)@.using(index),
            bind == old(self)@.to_bind(index),
    {
        let bind = match self.active {
            Some(active) if active == index => None,
            _ => Some(self.programs[index].id()),
        };
        self.active = Some(index);
        bind
    }

    /// The bound program, if one is bound.
    pub fn active(&self) -> (r: Option<&ShaderProgram>)
        requires
            self.wf(),
        ensures
            match r {
                Some(program) => self@.active_program() == Some(*program),
                None => self@.active_program() is None,
            },
    {
        match self.active {
            Some(index) => Some(&self.programs[index]),
            None => None,
        }
    }
}

} // verus!
