use crate::vertex::Attrib;
use vstd::prelude::*;

verus! {

/// The pipeline stage a shader is compiled for.
#[derive(Clone, Copy, Debug, PartialEq, Eq, Structural)]
pub enum ShaderKind {
    Vertex,
    Fragment,
}

/// A compiled shader object of one stage.
#[derive(Debug)]
pub struct Shader {
    pub id: u32,
    pub kind: ShaderKind,
}

/// What a compilation or link concludes from the driver's status and log:
/// the object on a non-zero status, else the log as the failure.
pub open spec fn outcome<T>(obj: T, status: i32, log: Seq<char>) -> Result<T, Seq<char>> {
    if status != 0 {
        Ok(obj)
    } else {
        Err(log)
    }
}

pub open spec fn result_view<T>(r: Result<T, String>) -> Result<T, Seq<char>> {
    match r {
        Ok(v) => Ok(v),
        Err(e) => Err(e@),
    }
}

impl Shader {
    /// Concludes the compilation of shader object `id` of stage `kind`.
    /// `status` is the compile status the driver reported; `log` its
    /// compilation log, which a failed compilation must leave non-empty.
    fn from_source(id: u32, kind: ShaderKind, status: i32, log: String) -> (r: Result<Shader, String>)
        requires
            status != 0 || log@.len() > 0,
        ensures
            result_view(r) == outcome(Shader { id, kind }, status, log@),
            r is Err ==> r->Err_0@.len() > 0,
    {
        if status != 0 {
            Ok(Shader { id, kind })
        } else {
            Err(log)
        }
    }

    /// Concludes the compilation of vertex shader `id` from its source; see
    /// `from_source` for `status` and `log`.
    pub fn vertex_from_source(id: u32, status: i32, log: String) -> (r: Result<Shader, String>)
        requires
            status != 0 || log@.len() > 0,
        ensures
            result_view(r) == outcome(Shader { id, kind: ShaderKind::Vertex }, status, log@),
            r is Err ==> r->Err_0@.len() > 0,
    {
        Shader::from_source(id, ShaderKind::Vertex, status, log)
    }

    /// Concludes the compilation of fragment shader `id` from its source; see
    /// `from_source` for `status` and `log`.
    pub fn fragment_from_source(id: u32, status: i32, log: String) -> (r: Result<Shader, String>)
        requires
            status != 0 || log@.len() > 0,
        ensures
            result_view(r) == outcome(Shader { id, kind: ShaderKind::Fragment }, status, log@),
            r is Err ==> r->Err_0@.len() > 0,
    {
        Shader::from_source(id, ShaderKind::Fragment, status, log)
    }
}

/// A linked shader program, named for diagnostics.
#[derive(Debug)]
pub struct Program {
    pub name: String,
    pub id: u32,
}

/// A uniform location of a linked program.
#[derive(Clone, Copy, Debug, PartialEq, Eq, Structural)]
pub struct Uniform {
    pub id: i32,
}

/// The location the driver reports for a name the program lacks.
pub const NOT_FOUND: i32 = -1;

impl Program {
    /// The shader objects to attach before linking, in the order given.
    pub fn attachments(shaders: &[&Shader]) -> (r: Vec<u32>)
        ensures
            r@.len() == shaders@.len(),
            forall|i: int| 0 <= i < shaders@.len() ==> r@[i] == shaders@[i].id,
    {
        let mut r: Vec<u32> = Vec::new();
        let mut i: usize = 0;
        while i < shaders.len()
            invariant
                i <= shaders@.len(),
                r@.len() == i,
                forall|j: int| 0 <= j < i ==> r@[j] == shaders@[j].id,
            decreases shaders@.len() - i,
        {
            r.push(shaders[i].id);
            i = i + 1;
        }
        r
    }

    /// Concludes the link of program object `id`: `status` is the link
    /// status the driver reported; `log` its link log, which a failed link
    /// must leave non-empty.
    pub fn link(name: String, id: u32, status: i32, log: String) -> (r: Result<Program, String>)
        requires
            status != 0 || log@.len() > 0,
        ensures
            result_view(r) == outcome(Program { name, id }, status, log@),
            r is Err ==> r->Err_0@.len() > 0,
    {
        if status != 0 {
            Ok(Program { name, id })
        } else {
            Err(log)
        }
    }

    /// The token for setting this program's uniforms; the caller makes the
    /// program current before using it.
    pub fn use_program(&self) -> (r: ProgramUniformContext)
        ensures
            r.program() == self.id,
    {
        ProgramUniformContext { program: self.id }
    }

    /// The attribute at `location`, as the driver reported it for a name.
    /// A name the program lacks is a caller error.
    pub fn get_attrib(&self, location: i32) -> (r: Attrib)
        requires
            location != NOT_FOUND,
        ensures
            r.id == location as u32,
    {
        Attrib { id: location as u32 }
    }

    /// The uniform at `location`, as the driver reported it for a name. A
    /// name the program lacks is a caller error.
    pub fn get_uniform(&self, location: i32) -> (r: Uniform)
        requires
            location != NOT_FOUND,
        ensures
            r.id == location,
    {
        match self.get_uniform_option(location) {
            Some(u) => u,
            None => Uniform { id: NOT_FOUND },
        }
    }

    /// The uniform at `location`, or `None` where the driver reported the
    /// name absent (never declared, or optimised out).
    pub fn get_uniform_option(&self, location: i32) -> (r: Option<Uniform>)
        ensures
            location == NOT_FOUND ==> r is None,
            location != NOT_FOUND ==> r == Some(Uniform { id: location }),
    {
        if location == NOT_FOUND {
            None
        } else {
            Some(Uniform { id: location })
        }
    }
}

/// The capability to set the uniforms of the current program. Only
/// `Program::use_program` hands one out.
pub struct ProgramUniformContext {
    program: u32,
}

impl ProgramUniformContext {
    pub closed spec fn program(&self) -> u32 {
        self.program
    }

    /// The integer written by an integer uniform store: `(location, value)`.
    pub fn set_i32(&self, u: Uniform, v: i32) -> (r: (i32, i32))
        ensures
            r == (u.id, v),
    {
        (u.id, v)
    }

    /// A boolean uniform is stored as the integer 1 or 0.
    pub fn set_bool(&self, u: Uniform, v: bool) -> (r: (i32, i32))
        ensures
            r == (u.id, if v { 1i32 } else { 0i32 }),
    {
        let n: i32 = if v { 1 } else { 0 };
        (u.id, n)
    }

    /// The 16 entries of a 4x4 matrix given as four columns, column after
    /// column, untransposed: entry `4 * c + k` is row `k` of column `c`.
    pub fn set_mat4<T: Copy>(&self, u: Uniform, mat: &[[T; 4]; 4]) -> (r: (i32, Vec<T>))
        ensures
            r.0 == u.id,
            r.1@.len() == 16,
            forall|c: int, k: int| 0 <= c < 4 && 0 <= k < 4 ==> r.1@[4 * c + k] == mat@[c]@[k],
    {
        let mut out: Vec<T> = Vec::new();
        let mut c: usize = 0;
        while c < 4
            invariant
                c <= 4,
                out@.len() == 4 * c,
                forall|c2: int, k: int| 0 <= c2 < c && 0 <= k < 4 ==> out@[4 * c2 + k] == mat@[c2]@[k],
            decreases 4 - c,
        {
            let col = mat[c];
            let mut k: usize = 0;
            while k < 4
                invariant
                    c < 4,
                    k <= 4,
                    col == mat@[c as int],
                    out@.len() == 4 * c + k,
                    forall|c2: int, k2: int| 0 <= c2 < c && 0 <= k2 < 4 ==> out@[4 * c2 + k2] == mat@[c2]@[k2],
                    forall|k2: int| 0 <= k2 < k ==> out@[4 * c + k2] == mat@[c as int]@[k2],
                decreases 4 - k,
            {
                out.push(col[k]);
                k = k + 1;
            }
            c = c + 1;
        }
        (u.id, out)
    }
}

} // verus!
