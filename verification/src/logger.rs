//! The log store: one file per entity, source, day and stream.

use crate::id::Id;
use crate::text::{decimal, decimal_string};
use crate::vmm_dirs::{join_path, path_join, VmmDirs};
use vstd::prelude::*;
use vstd::string::*;

verus! {

/// The seconds of a day.
pub const SECONDS_PER_DAY: u64 = 86_400;

/// The entity that a line belongs to.
#[derive(Debug, Clone, Copy, PartialEq, Eq, Structural)]
pub enum LogId {
    /// A machine.
    Machine(Id),
    /// An instance on its boot with this sequence number.
    Instance(Id, u64),
}

/// The stream that a line was read from.
#[derive(Debug, Clone, Copy, PartialEq, Eq, Structural)]
pub enum LogStream {
    Stdout,
    Stderr,
}

/// The program that wrote a line.
#[derive(Debug, Clone, Copy, PartialEq, Eq, Structural)]
pub enum LogSource {
    CloudInit,
    Qemu,
    Virtiofs,
}

/// One line of a subprocess's output.
#[derive(Debug, PartialEq, Eq)]
pub struct LogLine {
    pub id: LogId,
    /// When the line was read, in seconds since the epoch.
    pub when: u64,
    pub stream: LogStream,
    pub source: LogSource,
    pub line: String,
}

/// The name of a stream in file names.
pub open spec fn stream_name(stream: LogStream) -> Seq<char> {
    match stream {
        LogStream::Stdout => "stdout"@,
        LogStream::Stderr => "stderr"@,
    }
}

/// The name of a source in file names.
pub open spec fn source_name(source: LogSource) -> Seq<char> {
    match source {
        LogSource::CloudInit => "cloud-init"@,
        LogSource::Qemu => "qemu"@,
        LogSource::Virtiofs => "virtiofs"@,
    }
}

/// The name of the file that takes a line: source, day and stream, and for
/// an instance the boot sequence number after the day.
pub open spec fn log_file_name(id: LogId, when: u64, stream: LogStream, source: LogSource) -> Seq<
    char,
> {
    let day = decimal((when / SECONDS_PER_DAY) as nat);
    match id {
        LogId::Machine(_) => source_name(source) + "."@ + day + "."@ + stream_name(stream),
        LogId::Instance(_, boot_seq) => source_name(source) + "."@ + day + "-"@ + decimal(
            boot_seq as nat,
        ) + "."@ + stream_name(stream),
    }
}

impl LogStream {
    /// The name of the stream in file names.
    pub fn as_ref(&self) -> (name: &'static str)
        ensures
            name@ == stream_name(*self),
    {
        match self {
            LogStream::Stdout => "stdout",
            LogStream::Stderr => "stderr",
        }
    }
}

impl LogSource {
    /// The name of the source in file names.
    pub fn as_ref(&self) -> (name: &'static str)
        ensures
            name@ == source_name(*self),
    {
        match self {
            LogSource::CloudInit => "cloud-init",
            LogSource::Qemu => "qemu",
            LogSource::Virtiofs => "virtiofs",
        }
    }
}

impl LogLine {
    /// A line of a machine's subprocess, read at `when` seconds since the
    /// epoch.
    pub fn machine(id: Id, when: u64, stream: LogStream, source: LogSource, line: String) -> (log:
        LogLine)
        ensures
            log.id == LogId::Machine(id),
            log.when == when,
            log.stream == stream,
            log.source == source,
            log.line == line,
    {
        LogLine { id: LogId::Machine(id), when, stream, source, line }
    }

    /// A line of an instance's subprocess on the boot `boot_seq`, read at
    /// `when` seconds since the epoch.
    pub fn instance(
        id: Id,
        boot_seq: u64,
        when: u64,
        stream: LogStream,
        source: LogSource,
        line: String,
    ) -> (log: LogLine)
        ensures
            log.id == LogId::Instance(id, boot_seq),
            log.when == when,
            log.stream == stream,
            log.source == source,
            log.line == line,
    {
        LogLine { id: LogId::Instance(id, boot_seq), when, stream, source, line }
    }

    /// The name of the file that takes the line.
    pub fn file_name(&self) -> (name: String)
        ensures
            name@ == log_file_name(self.id, self.when, self.stream, self.source),
    {
        let day = decimal_string(self.when / SECONDS_PER_DAY);
        let mut name = String::from_str(self.source.as_ref());
        name.append(".");
        name.append(day.as_str());
        match self.id {
            LogId::Machine(_) => {},
            LogId::Instance(_, boot_seq) => {
                name.append("-");
                name.append(decimal_string(boot_seq).as_str());
            },
        }
        name.append(".");
        name.append(self.stream.as_ref());
        name
    }
}

/// Where a line goes: the directory to make, the file to append to, and the
/// text to append.
#[derive(Debug, PartialEq, Eq)]
pub struct LogWrite {
    pub dir: String,
    pub path: String,
    pub text: String,
}

/// The log store below the state root.
#[derive(Debug, Clone, PartialEq, Eq)]
pub struct Logger {
    dirs: VmmDirs,
}

impl Logger {
    /// The layout that the store writes into.
    pub closed spec fn dirs(&self) -> VmmDirs {
        self.dirs
    }

    /// The directory of the logs of an entity.
    pub open spec fn log_dir(&self, id: LogId) -> Seq<char> {
        match id {
            LogId::Machine(machine) => self.dirs()@.machine_log_dir(machine@),
            LogId::Instance(instance, _) => self.dirs()@.instance_log_dir(instance@),
        }
    }

    /// The log store of a layout.
    pub fn new(dirs: VmmDirs) -> (logger: Logger)
        ensures
            logger.dirs() == dirs,
    {
        Logger { dirs }
    }

    /// Where the line goes: the log directory of its entity, and in it the
    /// file of its source, day and stream. The line is appended as it is.
    pub fn log(&self, log: LogLine) -> (write: LogWrite)
        ensures
            write.dir@ == self.log_dir(log.id),
            write.path@ == path_join(
                self.log_dir(log.id),
                log_file_name(log.id, log.when, log.stream, log.source),
            ),
            write.text == log.line,
    {
        let dir = match log.id {
            LogId::Machine(id) => self.dirs.get_machine_log_dir(id),
            LogId::Instance(id, _) => self.dirs.get_instance_log_dir(id),
        };
        let path = join_path(dir.as_str(), log.file_name().as_str());
        LogWrite { dir, path, text: log.line }
    }
}

} // verus!
