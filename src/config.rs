use vstd::prelude::*;
use uuid::Uuid;
use crate::version::{MinecraftType, MinecraftVersion};

verus! {

#[verifier::external_type_specification]
#[verifier::external_body]
pub struct ExUuid(Uuid);

/// Relies on uuid's `Uuid::new_v4`: a random identifier; nothing is known of
/// its value.
#[verifier::external_body]
fn random_uuid() -> (r: Uuid) {
    Uuid::new_v4()
}

/// The identity and files of one server instance: its root directory, the
/// archive to run relative to that root, and what it runs.
pub struct ServerConfig {
    pub uuid: Uuid,
    pub core_path: String,
    pub jar_path: String,
    pub mc_version: MinecraftVersion,
    pub mc_type: MinecraftType,
}

impl ServerConfig {
    /// A blank configuration with a fresh identifier.
    pub fn new() -> (r: Self)
        ensures
            r.core_path@ == Seq::<char>::empty(),
            r.jar_path@ == Seq::<char>::empty(),
            r.mc_version == MinecraftVersion::Unknown,
            r.mc_type == MinecraftType::Unknown,
    {
        ServerConfig {
            uuid: random_uuid(),
            core_path: String::new(),
            jar_path: String::new(),
            mc_version: MinecraftVersion::Unknown,
            mc_type: MinecraftType::Unknown,
        }
    }

    pub fn duplicate(&self) -> (r: Self)
        ensures
            r.uuid == self.uuid,
            r.core_path@ == self.core_path@,
            r.jar_path@ == self.jar_path@,
            r.mc_version == self.mc_version,
            r.mc_type == self.mc_type,
    {
        ServerConfig {
            uuid: self.uuid,
            core_path: self.core_path.clone(),
            jar_path: self.jar_path.clone(),
            mc_version: self.mc_version,
            mc_type: self.mc_type,
        }
    }
}

/// The validated description of an instance that the supervisor runs.
pub struct InstanceData {
    pub root_dir: String,
    pub jar_path: String,
    pub mc_version: MinecraftVersion,
    pub mc_type: MinecraftType,
}

/// A process invocation: the program, its arguments and the directory it
/// runs in. Both output streams of the process are to be piped.
pub struct LaunchCommand {
    pub program: String,
    pub args: Vec<String>,
    pub working_dir: String,
}

pub open spec fn launch_args(jar_path: Seq<char>) -> Seq<Seq<char>> {
    seq!["-jar"@, jar_path, "nogui"@]
}

/// The invocation that runs the server archive of `cfg` without a window,
/// in the instance's root directory.
pub fn build_command(cfg: &ServerConfig) -> (r: LaunchCommand)
    ensures
        r.program@ == "java"@,
        r.args@.map_values(|a: String| a@) == launch_args(cfg.jar_path@),
        r.working_dir@ == cfg.core_path@,
{
    let mut args: Vec<String> = Vec::new();
    args.push(String::from_str("-jar"));
    args.push(cfg.jar_path.clone());
    args.push(String::from_str("nogui"));
    assert(args@.map_values(|a: String| a@) =~= launch_args(cfg.jar_path@));
    LaunchCommand { program: String::from_str("java"), args, working_dir: cfg.core_path.clone() }
}

} // verus!
