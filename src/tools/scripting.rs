use vstd::prelude::*;

verus! {

#[derive(Debug)]
pub struct RunLuaScriptParams {
    /// The Lua script code to execute in Aseprite
    pub script: String,
    /// Optional sprite file to open before running the script
    pub file_path: Option<String>,
}

#[derive(Debug)]
pub struct ExecuteCliParams {
    /// CLI arguments to pass to Aseprite (batch mode is always enabled).
    /// Example: ["sprite.ase", "--save-as", "output.png"]
    pub args: Vec<String>,
}

} // verus!
