use vstd::prelude::*;

use crate::upload::ConnectionArgs;

verus! {

/// The first bytes of a log configuration file.
pub open spec fn magic() -> Seq<u8> {
    seq![78u8, 76u8, 77u8, 0u8]
}

/// The log configuration that the device reads at boot: where to send its
/// logs and whether kernel debug output is included.
#[derive(Clone, Copy, Debug)]
pub struct PrincessLogConfig {
    pub magic: [u8; 4],
    /// The host's IPv4 address, most significant octet first.
    pub ip: [u8; 4],
    pub port: u16,
    pub kernel_debug: bool,
}

/// The file's bytes: the magic, the address, the flags as a little-endian
/// word whose lowest bit is kernel debug output, the port in little-endian
/// order and two bytes of padding.
pub open spec fn encode(ip: Seq<u8>, port: u16, kernel_debug: bool) -> Seq<u8> {
    magic() + ip + seq![if kernel_debug { 1u8 } else { 0u8 }, 0u8, 0u8, 0u8] + seq![
        (port % 256) as u8,
        (port / 256) as u8,
        0u8,
        0u8,
    ]
}

/// What the bytes of a file say, if there are enough of them: magic,
/// address, port and kernel debug flag.
pub open spec fn decode(b: Seq<u8>) -> Option<(Seq<u8>, Seq<u8>, u16, bool)> {
    if b.len() < 14 {
        None
    } else {
        Some(
            (
                b.subrange(0, 4),
                b.subrange(4, 8),
                (b[12] + 256 * b[13]) as u16,
                b[8] % 2 == 1,
            ),
        )
    }
}

/// The file is too short to hold a configuration.
#[derive(Clone, Copy, Debug, PartialEq, Eq, Structural)]
pub struct Truncated;

impl PrincessLogConfig {
    pub fn new(ip: [u8; 4], port: u16, kernel_debug: bool) -> (r: PrincessLogConfig)
        ensures
            r.magic@ == magic(),
            r.ip == ip,
            r.port == port,
            r.kernel_debug == kernel_debug,
    {
        let m: [u8; 4] = [78u8, 76u8, 77u8, 0u8];
        assert(m@ =~= magic());
        PrincessLogConfig { magic: m, ip, port, kernel_debug }
    }

    /// Whether the configuration starts with the expected magic.
    pub fn has_valid_magic(&self) -> (r: bool)
        ensures
            r == (self.magic@ == magic()),
    {
        let ok = self.magic[0] == 78 && self.magic[1] == 76 && self.magic[2] == 77
            && self.magic[3] == 0;
        proof {
            if ok {
                assert(self.magic@ =~= magic());
            }
        }
        ok
    }

    /// Reads a configuration from the start of a file's bytes.
    pub fn parse(bytes: &Vec<u8>) -> (r: Result<PrincessLogConfig, Truncated>)
        ensures
            match decode(bytes@) {
                Some((m, ip, port, kd)) => r matches Ok(c) && c.magic@ == m && c.ip@ == ip
                    && c.port == port && c.kernel_debug == kd,
                None => r is Err,
            },
    {
        if bytes.len() < 14 {
            return Err(Truncated);
        }
        let magic: [u8; 4] = [bytes[0], bytes[1], bytes[2], bytes[3]];
        let ip: [u8; 4] = [bytes[4], bytes[5], bytes[6], bytes[7]];
        let port: u16 = bytes[12] as u16 + (bytes[13] as u16) * 256;
        let kernel_debug = bytes[8] % 2 == 1;
        assert(magic@ =~= bytes@.subrange(0, 4));
        assert(ip@ =~= bytes@.subrange(4, 8));
        Ok(PrincessLogConfig { magic, ip, port, kernel_debug })
    }

    /// The file's bytes; the magic written is always the expected one.
    pub fn serialize(&self) -> (r: Vec<u8>)
        ensures
            r@ == encode(self.ip@, self.port, self.kernel_debug),
    {
        let flags: u8 = if self.kernel_debug {
            1
        } else {
            0
        };
        let mut res: Vec<u8> = Vec::new();
        res.push(78);
        res.push(76);
        res.push(77);
        res.push(0);
        res.push(self.ip[0]);
        res.push(self.ip[1]);
        res.push(self.ip[2]);
        res.push(self.ip[3]);
        res.push(flags);
        res.push(0);
        res.push(0);
        res.push(0);
        res.push((self.port % 256) as u8);
        res.push((self.port / 256) as u8);
        res.push(0);
        res.push(0);
        assert(res@ =~= encode(self.ip@, self.port, self.kernel_debug));
        res
    }
}

/// A configuration written and read back gives its address, port and
/// kernel debug flag, under the expected magic.
pub proof fn lemma_config_round_trip(ip: Seq<u8>, port: u16, kernel_debug: bool)
    requires
        ip.len() == 4,
    ensures
        decode(encode(ip, port, kernel_debug)) == Some((magic(), ip, port, kernel_debug)),
{
    let b = encode(ip, port, kernel_debug);
    assert(b.subrange(0, 4) =~= magic());
    assert(b.subrange(4, 8) =~= ip);
    assert(b[12] + 256 * b[13] == port);
}

/// Points the device's log output at a host.
#[derive(Debug)]
pub struct Configure {
    pub connection: ConnectionArgs,
    /// The host that the device sends its logs to; guessed where not given.
    pub host_ip_address: Option<String>,
    pub kernel_debug: bool,
}

#[derive(Debug)]
pub enum LogsCmd {
    /// Prints what devices send to a TCP port.
    Listen,
    Configure(Configure),
}

/// Receives or configures the device's log stream.
#[derive(Debug)]
pub struct Logs {
    pub cmd: Option<LogsCmd>,
    pub port: u16,
}

impl Logs {
    /// The path of the configuration file on the device.
    pub fn config_path() -> (r: String)
        ensures
            r@ == "ur0:/data/NetLoggingMgrConfig.bin"@,
    {
        String::from_str("ur0:/data/NetLoggingMgrConfig.bin")
    }
}

} // verus!
