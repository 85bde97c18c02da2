//! User configuration: ports, the Master's address and the default layouts.
use vstd::prelude::*;

verus! {

/// User configuration.
#[derive(Debug, Clone)]
pub struct AppConfig {
    /// OSC send port.
    pub osc_send_port: u16,
    /// OSC receive port.
    pub osc_receive_port: u16,
    /// Master/Slave network port.
    pub network_port: u16,
    /// Address of the Master that a Slave connects to.
    pub master_ip: String,
    /// Default speaker layout name.
    pub default_speaker_layout: String,
    /// Default SUB layout name.
    pub default_sub_layout: String,
    /// Log directory (empty for the default one).
    pub log_directory: String,
}

/// Default OSC send port.
pub fn default_osc_send_port() -> (p: u16)
    ensures
        p == 7444,
{
    7444
}

/// Default OSC receive port.
pub fn default_osc_receive_port() -> (p: u16)
    ensures
        p == 7445,
{
    7445
}

/// Default Master/Slave network port.
pub fn default_network_port() -> (p: u16)
    ensures
        p == 9123,
{
    9123
}

/// Default Master address.
pub fn default_master_ip() -> (s: String)
    ensures
        s@ == "127.0.0.1"@,
{
    String::from_str("127.0.0.1")
}

/// Default speaker layout name.
pub fn default_speaker_layout() -> (s: String)
    ensures
        s@ == "7.1.4"@,
{
    String::from_str("7.1.4")
}

/// Default SUB layout name.
pub fn default_sub_layout() -> (s: String)
    ensures
        s@ == "None"@,
{
    String::from_str("None")
}

impl Default for AppConfig {
    fn default() -> (c: Self)
        ensures
            c.osc_send_port == 7444,
            c.osc_receive_port == 7445,
            c.network_port == 9123,
            c.master_ip@ == "127.0.0.1"@,
            c.default_speaker_layout@ == "7.1.4"@,
            c.default_sub_layout@ == "None"@,
            c.log_directory@ == ""@,
    {
        AppConfig {
            osc_send_port: default_osc_send_port(),
            osc_receive_port: default_osc_receive_port(),
            network_port: default_network_port(),
            master_ip: default_master_ip(),
            default_speaker_layout: default_speaker_layout(),
            default_sub_layout: default_sub_layout(),
            log_directory: String::from_str(""),
        }
    }
}

/// Two configurations hold the same values.
pub open spec fn same_config(a: AppConfig, b: AppConfig) -> bool {
    &&& a.osc_send_port == b.osc_send_port
    &&& a.osc_receive_port == b.osc_receive_port
    &&& a.network_port == b.network_port
    &&& a.master_ip@ == b.master_ip@
    &&& a.default_speaker_layout@ == b.default_speaker_layout@
    &&& a.default_sub_layout@ == b.default_sub_layout@
    &&& a.log_directory@ == b.log_directory@
}

} // verus!
