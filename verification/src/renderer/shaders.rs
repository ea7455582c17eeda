//! Shader sources the renderer compiles.

use vstd::prelude::*;

verus! {

/// Paths of the shader sources, in compile order.
pub fn shader_source_files() -> (files: Vec<&'static str>)
    ensures
        files@.len() == 12,
        files@[0]@ == "shaders/chunk_mesh.vert"@,
        files@[1]@ == "shaders/chunk_mesh.frag"@,
        files@[2]@ == "shaders/chunk_cull.comp"@,
        files@[3]@ == "shaders/hiz_generate.comp"@,
        files@[4]@ == "shaders/egui.vert"@,
        files@[5]@ == "shaders/egui.frag"@,
        files@[6]@ == "shaders/meshlet_cull.comp"@,
        files@[7]@ == "shaders/meshlet_draw.vert"@,
        files@[8]@ == "shaders/meshlet_draw.frag"@,
        files@[9]@ == "shaders/meshlet.task"@,
        files@[10]@ == "shaders/meshlet.mesh"@,
        files@[11]@ == "shaders/shadow_depth.vert"@,
{
    let mut files: Vec<&'static str> = Vec::new();
    files.push("shaders/chunk_mesh.vert");
    files.push("shaders/chunk_mesh.frag");
    files.push("shaders/chunk_cull.comp");
    files.push("shaders/hiz_generate.comp");
    files.push("shaders/egui.vert");
    files.push("shaders/egui.frag");
    files.push("shaders/meshlet_cull.comp");
    files.push("shaders/meshlet_draw.vert");
    files.push("shaders/meshlet_draw.frag");
    files.push("shaders/meshlet.task");
    files.push("shaders/meshlet.mesh");
    files.push("shaders/shadow_depth.vert");
    files
}

} // verus!
