use vstd::prelude::*;

verus! {

/// Startup configuration: the ordered list of TCP ports, the maximum number
/// of tables to bind (table identifiers are the 1-based positions in the port
/// list), and the bind host.
#[derive(Clone)]
pub struct ServerConfig {
    pub ports: Vec<u16>,
    pub max_tables: u8,
    pub host: String,
}

impl ServerConfig {
    /// The stock configuration: five consecutive ports, one table each, bound
    /// on every interface.
    pub fn new() -> (r: Self)
        ensures
            r.ports@ == seq![8888u16, 8889u16, 8890u16, 8891u16, 8892u16],
            r.max_tables == 5,
            r.host@ == "0.0.0.0"@,
    {
        let ports: Vec<u16> = vec![8888, 8889, 8890, 8891, 8892];
        proof {
            assert(ports@ =~= seq![8888u16, 8889u16, 8890u16, 8891u16, 8892u16]);
        }
        ServerConfig { ports, max_tables: 5, host: "0.0.0.0".to_owned() }
    }
}

impl Default for ServerConfig {
    /// Same stock configuration as `ServerConfig::new`.
    fn default() -> (r: Self)
        ensures
            r.ports@ == seq![8888u16, 8889u16, 8890u16, 8891u16, 8892u16],
            r.max_tables == 5,
            r.host@ == "0.0.0.0"@,
    {
        Self::new()
    }
}

} // verus!
