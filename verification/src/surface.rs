//! The surface that is on display, and how a rebuild replaces it.
//!
//! A surface is a mesh together with the compiled script that it was built
//! from. The two are built together and replaced together: a rebuild that
//! succeeds supersedes both, and one that fails leaves both as they were.

use vstd::prelude::*;

use crate::config::ConfigError;
use crate::script::ScriptError;

verus! {

/// Why a surface could not be built from a script.
#[derive(Debug, Clone, Copy, PartialEq, Eq, Structural)]
pub enum BuildError {
    /// The script could not be read or does not compile.
    Compile,
    /// Running the body of the script, or calling one of its functions,
    /// failed.
    Evaluation,
    /// The scope that the script left behind does not bind the four bounds of
    /// the parameter domain to numbers, or binds them to an empty domain.
    Domain,
    /// The scope that the script left behind does not describe a grid.
    Config(ConfigError),
    /// A function of the script returned a wrong number of values.
    Script(ScriptError),
}

/// A mesh of type `M` and the compiled script of type `P` that it was built
/// from.
pub struct Surface<M, P> {
    pub mesh: M,
    pub program: P,
}

impl<M, P> Surface<M, P> {
    /// A surface of a mesh and the compiled script that it was built from.
    pub fn new(mesh: M, program: P) -> (surface: Self)
        ensures
            surface.mesh == mesh,
            surface.program == program,
    {
        Surface { mesh, program }
    }

    /// Takes the outcome of a rebuild. A rebuilt mesh and script replace the
    /// current ones together; a failure leaves the surface as it was and is
    /// handed back to the caller.
    pub fn update<E>(&mut self, rebuilt: Result<(M, P), E>) -> (result: Result<(), E>)
        ensures
            match rebuilt {
                Ok((mesh, program)) => {
                    &&& result is Ok
                    &&& final(self).mesh == mesh
                    &&& final(self).program == program
                },
                Err(error) => result == Err::<(), E>(error) && *final(self) == *old(self),
            },
    {
        match rebuilt {
            Ok((mesh, program)) => {
                self.mesh = mesh;
                self.program = program;
                Ok(())
            },
            Err(error) => Err(error),
        }
    }
}

} // verus!
