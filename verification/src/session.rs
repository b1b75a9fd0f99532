//! The recording session's launch parameters.
//!
//! The external recording agent registers itself as a controllable playback
//! device and writes the audio it is asked to play to a file. It is launched
//! with a fixed parameter set (raw S24 output through a pipe backend,
//! passthrough mode, gapless and autoplay disabled, fixed bitrate) and needs
//! a fixed warm-up period before the device it registers becomes
//! discoverable. Launching, waiting and terminating the process are the
//! caller's work; this module pins down the parameters.

use vstd::prelude::*;

verus! {

/// Seconds the recording agent needs after launch before its device is
/// discoverable. Waiting this long is a hard synchronization requirement,
/// not best-effort.
pub const WARMUP_DELAY_SECS: u64 = 20;

/// What a recording session is launched with: the name its device registers
/// under, the cache directory handed to the agent, and the file the captured
/// audio goes to.
pub struct SessionConfig {
    pub device_name: String,
    pub cache_dir: String,
    pub output_path: String,
}

/// The name under which the recording agent registers as a playback device.
pub fn standard_device_name() -> (n: String)
    ensures
        n@ == "_comp_"@,
{
    "_comp_".to_owned()
}

/// The fixed argument list the recording agent is launched with.
pub fn recorder_args(config: &SessionConfig) -> (args: Vec<String>)
    ensures
        args@.len() == 23,
        args@[0]@ == "--name"@,
        args@[1] == config.device_name,
        args@[2]@ == "--bitrate"@,
        args@[3]@ == "320"@,
        args@[4]@ == "--system-cache"@,
        args@[5] == config.cache_dir,
        args@[6]@ == "--device-type"@,
        args@[7]@ == "computer"@,
        args@[8]@ == "--initial-volume"@,
        args@[9]@ == "100"@,
        args@[10]@ == "--disable-audio-cache"@,
        args@[11]@ == "--disable-gapless"@,
        args@[12]@ == "--backend"@,
        args@[13]@ == "pipe"@,
        args@[14]@ == "--passthrough"@,
        args@[15]@ == "--autoplay"@,
        args@[16]@ == "off"@,
        args@[17]@ == "--format"@,
        args@[18]@ == "S24"@,
        args@[19]@ == "--dither"@,
        args@[20]@ == "none"@,
        args@[21]@ == "--device"@,
        args@[22] == config.output_path,
{
    let mut args: Vec<String> = Vec::new();
    args.push("--name".to_owned());
    args.push(config.device_name.clone());
    args.push("--bitrate".to_owned());
    args.push("320".to_owned());
    args.push("--system-cache".to_owned());
    args.push(config.cache_dir.clone());
    args.push("--device-type".to_owned());
    args.push("computer".to_owned());
    args.push("--initial-volume".to_owned());
    args.push("100".to_owned());
    args.push("--disable-audio-cache".to_owned());
    args.push("--disable-gapless".to_owned());
    args.push("--backend".to_owned());
    args.push("pipe".to_owned());
    args.push("--passthrough".to_owned());
    args.push("--autoplay".to_owned());
    args.push("off".to_owned());
    args.push("--format".to_owned());
    args.push("S24".to_owned());
    args.push("--dither".to_owned());
    args.push("none".to_owned());
    args.push("--device".to_owned());
    args.push(config.output_path.clone());
    args
}

} // verus!
