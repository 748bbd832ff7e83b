//! A mesh component that draws one named mesh.
use vstd::prelude::*;

verus! {

#[derive(Debug)]
pub struct StaticMesh {
    pub mesh_name: String,
}

impl StaticMesh {
    /// Switches to the mesh `name`; the recorded draw commands no longer
    /// match, so they are marked outdated.
    pub fn set_mesh(&mut self, command_buffer_outdated: &mut bool, name: String)
        ensures
            final(self).mesh_name@ == name@,
            *final(command_buffer_outdated),
    {
        self.mesh_name = name;
        *command_buffer_outdated = true;
    }
}

} // verus!
