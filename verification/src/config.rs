//! The launcher configuration: where the server lives, which jar to
//! run, how much memory to grant the runtime, and the panel's display
//! preferences.  The application layer moves these values to and from
//! disk; the defaults and the launch argument list are decided here.

use vstd::prelude::*;

verus! {

/// Settings of the Java runtime launching the server.
pub struct JavaConfig {
    /// The runtime executable to invoke.
    pub path: String,
    /// Initial heap grant, in megabytes.
    pub min_ram_mb: u32,
    /// Maximum heap grant, in megabytes.
    pub max_ram_mb: u32,
    /// Further arguments passed to the runtime.
    pub args: Vec<String>,
}

/// Display preferences of the control panel.
pub struct UiConfig {
    /// The player capacity the panel shows.
    pub max_players: u32,
    /// Whether the console view follows new output.
    pub auto_scroll_console: bool,
}

/// The whole launcher configuration.
pub struct ServerConfig {
    /// The server's working directory.
    pub server_dir: String,
    /// The jar file to run, relative to the working directory.
    pub jar: String,
    /// The Java runtime settings.
    pub java: JavaConfig,
    /// The panel preferences.
    pub ui: UiConfig,
}

impl Default for ServerConfig {
    /// The configuration used until one is loaded.
    fn default() -> (r: Self)
        ensures
            r.server_dir@ == "/home/maksym/server"@,
            r.jar@ == "server.jar"@,
            r.java.path@ == "java"@,
            r.java.min_ram_mb == 1024,
            r.java.max_ram_mb == 4096,
            r.java.args@ == Seq::<String>::empty(),
            r.ui.max_players == 20,
            r.ui.auto_scroll_console,
    {
        ServerConfig {
            server_dir: String::from_str("/home/maksym/server"),
            jar: String::from_str("server.jar"),
            java: JavaConfig {
                path: String::from_str("java"),
                min_ram_mb: 1024,
                max_ram_mb: 4096,
                args: Vec::new(),
            },
            ui: UiConfig { max_players: 20, auto_scroll_console: true },
        }
    }
}

/// The argument list handed to the Java runtime: the memory flag with
/// the given size, then `-jar`, the jar name, and `nogui`.
pub fn launch_args(ram: &String) -> (r: Vec<String>)
    ensures
        r@.len() == 4,
        r@[0]@ == "-Xmx"@ + ram@,
        r@[1]@ == "-jar"@,
        r@[2]@ == "server.jar"@,
        r@[3]@ == "nogui"@,
{
    let mut flag = String::from_str("-Xmx");
    flag.append(ram.as_str());
    let mut v: Vec<String> = Vec::new();
    v.push(flag);
    v.push(String::from_str("-jar"));
    v.push(String::from_str("server.jar"));
    v.push(String::from_str("nogui"));
    v
}

} // verus!
