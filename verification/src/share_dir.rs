//! Shared directories: one `virtiofsd` for each host path that a guest
//! shares, under a random tag.

use crate::id::{
    base62_digits, base62_encode, base62_encoded, be_value, id_text, os_random_bytes, pow256, Id,
};
use crate::logger::{LogId, LogLine, LogSource, LogStream};
use crate::machine::Machine;
use crate::net::lemma_framed_value;
use crate::script::Spawn;
use crate::text::{decimal, decimal_string, holds, views};
use vstd::prelude::*;
use vstd::string::*;

verus! {

/// The number of characters of a tag.
pub const TAG_LEN: usize = 8;

/// The number of random bytes that a tag is made of.
pub const TAG_BYTES: usize = 6;

/// How often a tag is drawn before the search for a free one is given up.
pub const TAG_ATTEMPTS: usize = 32;

/// Why a shared directory could not be made or stopped.
#[derive(Debug, Clone, Copy, PartialEq, Eq, Structural)]
pub enum ShareDirError {
    /// The operating system gave no random bytes.
    NoEntropy,
    /// Every tag that was drawn is taken.
    NoFreeTag,
    /// `virtiofsd` ended without success.
    VirtiofsdFailed,
}

/// The tag that six random bytes give: the first eight characters of their
/// base-62 text.
pub open spec fn tag_of(bytes: Seq<u8>) -> Seq<char> {
    base62_encoded(bytes).subrange(0, TAG_LEN as int)
}

/// The socket of a shared directory.
pub open spec fn socket_path(instance: u128, tag: Seq<char>) -> Seq<char> {
    "/tmp/vmm-virtiofs-"@ + id_text(instance) + "-"@ + tag + ".sock"@
}

/// The arguments of QEMU for one shared directory.
pub open spec fn share_args(instance: u128, tag: Seq<char>) -> Seq<Seq<char>> {
    seq![
        "-chardev"@,
        "socket,id=char-"@ + tag + ",path="@ + socket_path(instance, tag),
        "-device"@,
        "vhost-user-fs-pci,queue-size=1024,chardev=char-"@ + tag + ",tag="@ + tag,
    ]
}

/// The arguments of QEMU that back the guest's memory by shared memory of
/// the host; an instance with shared directories needs them once.
pub open spec fn memory_backend_args(memory: u64) -> Seq<Seq<char>> {
    seq![
        "-object"@,
        "memory-backend-file,id=mem,size="@ + decimal(memory as nat) + "B,mem-path=/dev/shm,share=on"@,
        "-numa"@,
        "node,memdev=mem"@,
    ]
}

/// The arguments of `virtiofsd`.
pub open spec fn virtiofsd_args(instance: u128, tag: Seq<char>, path: Seq<char>) -> Seq<Seq<char>> {
    seq!["--socket-path"@, socket_path(instance, tag), "--shared-dir"@, path, "--tag"@, tag]
}

/// The base-62 text of six bytes has at least eight characters.
pub proof fn lemma_tag_len(bytes: Seq<u8>)
    requires
        bytes.len() == 6,
    ensures
        base62_encoded(bytes).len() >= 8,
        tag_of(bytes).len() == 8,
{
    lemma_framed_value(bytes);
    reveal_with_fuel(pow256, 7);
    let n = be_value(seq![1u8] + bytes);
    assert(n >= 281474976710656);
    let n1 = n / 62;
    let n2 = n1 / 62;
    let n3 = n2 / 62;
    let n4 = n3 / 62;
    let n5 = n4 / 62;
    let n6 = n5 / 62;
    let n7 = n6 / 62;
    assert(n7 >= 1);
    assert(base62_digits(n).len() == 1 + base62_digits(n1).len());
    assert(base62_digits(n1).len() == 1 + base62_digits(n2).len());
    assert(base62_digits(n2).len() == 1 + base62_digits(n3).len());
    assert(base62_digits(n3).len() == 1 + base62_digits(n4).len());
    assert(base62_digits(n4).len() == 1 + base62_digits(n5).len());
    assert(base62_digits(n5).len() == 1 + base62_digits(n6).len());
    assert(base62_digits(n6).len() == 1 + base62_digits(n7).len());
    assert(base62_digits(n7).len() == 1 + base62_digits(n7 / 62).len());
}

/// The tag of six bytes.
pub fn tag_from_bytes(bytes: &[u8]) -> (tag: String)
    requires
        bytes@.len() == 6,
    ensures
        tag@ == tag_of(bytes@),
        tag@.len() == 8,
{
    proof {
        lemma_tag_len(bytes@);
    }
    let text = base62_encode(bytes);
    String::from_str(text.as_str().substring_char(0, TAG_LEN))
}

/// A random tag that is not among `taken`. Tags are drawn from the
/// operating system's random source until one is free, at most
/// `TAG_ATTEMPTS` times.
pub fn generate_tag(taken: &Vec<String>) -> (r: Result<String, ShareDirError>)
    ensures
        match r {
            Ok(tag) => tag@.len() == 8 && !views(taken@).contains(tag@) && exists|bytes: Seq<u8>|
                bytes.len() == 6 && tag@ == tag_of(bytes),
            Err(e) => e == ShareDirError::NoEntropy || e == ShareDirError::NoFreeTag,
        },
{
    let mut attempt: usize = 0;
    while attempt < TAG_ATTEMPTS
        invariant
            attempt <= TAG_ATTEMPTS,
        decreases TAG_ATTEMPTS - attempt,
    {
        match os_random_bytes(TAG_BYTES) {
            Err(_) => {
                return Err(ShareDirError::NoEntropy);
            },
            Ok(bytes) => {
                let tag = tag_from_bytes(bytes.as_slice());
                if !holds(taken, &tag) {
                    return Ok(tag);
                }
            },
        }
        attempt = attempt + 1;
    }
    Err(ShareDirError::NoFreeTag)
}

/// One shared directory of an instance.
#[derive(Debug, PartialEq, Eq)]
pub struct ShareDir {
    instance_id: Id,
    instance_memory: u64,
    tag: String,
    path: String,
    running: bool,
}

/// A shared directory as contracts see it.
pub struct ShareDirView {
    /// The instance that shares.
    pub instance_id: u128,
    /// The memory of the instance, in bytes.
    pub instance_memory: u64,
    /// The tag under which the guest mounts the directory.
    pub tag: Seq<char>,
    /// The host path.
    pub path: Seq<char>,
    /// Whether the daemon runs.
    pub running: bool,
}

impl View for ShareDir {
    type V = ShareDirView;

    closed spec fn view(&self) -> ShareDirView {
        ShareDirView {
            instance_id: self.instance_id@,
            instance_memory: self.instance_memory,
            tag: self.tag@,
            path: self.path@,
            running: self.running,
        }
    }
}

impl ShareDir {
    /// The shared directory of `path` under a tag that was drawn for it; its
    /// daemon does not run.
    pub fn with_tag(instance_id: Id, instance_memory: u64, path: String, tag: String) -> (dir:
        ShareDir)
        ensures
            dir@ == (ShareDirView {
                instance_id: instance_id@,
                instance_memory,
                tag: tag@,
                path: path@,
                running: false,
            }),
    {
        ShareDir { instance_id, instance_memory, tag, path, running: false }
    }

    /// The shared directory of `path` for an instance of `machine`, under a
    /// random tag that is not among `taken`.
    pub fn new(instance_id: Id, machine: &Machine, path: String, taken: &Vec<String>) -> (r:
        Result<ShareDir, ShareDirError>)
        ensures
            match r {
                Ok(dir) => {
                    &&& dir@.instance_id == instance_id@
                    &&& dir@.instance_memory == machine.spec_config().memory
                    &&& dir@.path == path@
                    &&& !dir@.running
                    &&& dir@.tag.len() == 8
                    &&& !views(taken@).contains(dir@.tag)
                },
                Err(e) => e == ShareDirError::NoEntropy || e == ShareDirError::NoFreeTag,
            },
    {
        match generate_tag(taken) {
            Err(e) => Err(e),
            Ok(tag) => Ok(ShareDir::with_tag(instance_id, machine.config().memory, path, tag)),
        }
    }

    /// The tag.
    pub fn tag(&self) -> (tag: &String)
        ensures
            tag@ == self@.tag,
    {
        &self.tag
    }

    /// Whether the daemon runs.
    pub fn is_running(&self) -> (running: bool)
        ensures
            running == self@.running,
    {
        self.running
    }

    /// The UNIX socket of the daemon.
    pub fn get_socket_path(&self) -> (path: String)
        ensures
            path@ == socket_path(self@.instance_id, self@.tag),
    {
        let mut path = String::from_str("/tmp/vmm-virtiofs-");
        path.append(self.instance_id.to_string().as_str());
        path.append("-");
        path.append(self.tag.as_str());
        path.append(".sock");
        path
    }

    /// The arguments of QEMU for this share; with `with_memory_backend`,
    /// those that back the guest's memory by shared memory follow them.
    pub fn get_qemu_args(&self, with_memory_backend: bool) -> (args: Vec<String>)
        ensures
            views(args@) == if with_memory_backend {
                share_args(self@.instance_id, self@.tag) + memory_backend_args(
                    self@.instance_memory,
                )
            } else {
                share_args(self@.instance_id, self@.tag)
            },
    {
        let mut chardev = String::from_str("socket,id=char-");
        chardev.append(self.tag.as_str());
        chardev.append(",path=");
        chardev.append(self.get_socket_path().as_str());
        let mut device = String::from_str("vhost-user-fs-pci,queue-size=1024,chardev=char-");
        device.append(self.tag.as_str());
        device.append(",tag=");
        device.append(self.tag.as_str());
        let mut args: Vec<String> = Vec::new();
        args.push(String::from_str("-chardev"));
        args.push(chardev);
        args.push(String::from_str("-device"));
        args.push(device);
        if with_memory_backend {
            let mut mem = String::from_str("memory-backend-file,id=mem,size=");
            mem.append(decimal_string(self.instance_memory).as_str());
            mem.append("B,mem-path=/dev/shm,share=on");
            args.push(String::from_str("-object"));
            args.push(mem);
            args.push(String::from_str("-numa"));
            args.push(String::from_str("node,memdev=mem"));
            assert(views(args@) =~= share_args(self@.instance_id, self@.tag)
                + memory_backend_args(self@.instance_memory));
        } else {
            assert(views(args@) =~= share_args(self@.instance_id, self@.tag));
        }
        args
    }

    /// The daemon's process.
    pub fn start_virtiofsd(&self) -> (spawn: Spawn)
        ensures
            spawn.program@ == "/usr/lib/virtiofsd"@,
            views(spawn.args@) == virtiofsd_args(self@.instance_id, self@.tag, self@.path),
    {
        let mut args: Vec<String> = Vec::new();
        args.push(String::from_str("--socket-path"));
        args.push(self.get_socket_path());
        args.push(String::from_str("--shared-dir"));
        args.push(self.path.clone());
        args.push(String::from_str("--tag"));
        args.push(self.tag.clone());
        assert(views(args@) =~= virtiofsd_args(self@.instance_id, self@.tag, self@.path));
        Spawn { program: String::from_str("/usr/lib/virtiofsd"), args }
    }

    /// Starts the daemon unless it runs: the process to start, or nothing
    /// when it runs already.
    pub fn start(&mut self) -> (spawn: Option<Spawn>)
        ensures
            final(self)@ == (ShareDirView { running: true, ..old(self)@ }),
            spawn.is_some() == !old(self)@.running,
            spawn.is_some() ==> spawn.unwrap().program@ == "/usr/lib/virtiofsd"@ && views(
                spawn.unwrap().args@,
            ) == virtiofsd_args(old(self)@.instance_id, old(self)@.tag, old(self)@.path),
    {
        if self.running {
            return None;
        }
        self.running = true;
        Some(self.start_virtiofsd())
    }

    /// The daemon could not be started after all.
    pub fn start_failed(&mut self)
        ensures
            final(self)@ == (ShareDirView { running: false, ..old(self)@ }),
    {
        self.running = false;
    }

    /// Stops the daemon: says whether it ran, in which case the caller
    /// awaits the process and its log pumps.
    pub fn stop(&mut self) -> (was_running: bool)
        ensures
            was_running == old(self)@.running,
            final(self)@ == (ShareDirView { running: false, ..old(self)@ }),
    {
        let was_running = self.running;
        self.running = false;
        was_running
    }

    /// What the end of the daemon means: an end without success is an
    /// error.
    pub fn stopped(success: bool) -> (r: Result<bool, ShareDirError>)
        ensures
            success ==> r == Ok::<bool, ShareDirError>(true),
            !success ==> r == Err::<bool, ShareDirError>(ShareDirError::VirtiofsdFailed),
    {
        if success {
            Ok(true)
        } else {
            Err(ShareDirError::VirtiofsdFailed)
        }
    }

    /// A line of the daemon's output, for the log of the instance on its
    /// boot `boot_seq`.
    pub fn log_line(&self, boot_seq: u64, when: u64, stream: LogStream, line: String) -> (log:
        LogLine)
        ensures
            log.id == LogId::Instance(Id(self@.instance_id), boot_seq),
            log.when == when,
            log.stream == stream,
            log.source == LogSource::Virtiofs,
            log.line == line,
    {
        LogLine::instance(self.instance_id, boot_seq, when, stream, LogSource::Virtiofs, line)
    }
}

} // verus!
