use vmm::id::{Id, IdError};
use vmm::logger::{LogId, LogLine, LogSource, LogStream, Logger};
use vmm::vmm_dirs::{join_path, DirsError, VmmDirs};

fn dirs() -> VmmDirs {
    VmmDirs::new("/home/u/.config", "/home/u/.cache", Some("/home/u/.local/state")).unwrap()
}

fn sample() -> Id {
    Id(0x000102030405060708090a0b0c0d0e0f)
}

#[test]
fn dirs_need_a_state_directory() {
    assert_eq!(VmmDirs::new("/c", "/k", None).err(), Some(DirsError::NoStateDir));
}

#[test]
fn join_path_puts_a_slash_between() {
    assert_eq!(join_path("/a", "b"), "/a/b");
}

#[test]
fn config_paths() {
    let d = dirs();
    assert_eq!(d.get_machines_dir(), "/home/u/.config/vmm/machines");
    assert_eq!(d.get_networks_dir(), "/home/u/.config/vmm/networks");
    assert_eq!(
        d.get_machine_config_dir(sample()),
        "/home/u/.config/vmm/machines/xYyfzn3XTOUjzBXTmlU4n7"
    );
    assert_eq!(
        d.get_machine_config_file_path(sample()),
        "/home/u/.config/vmm/machines/xYyfzn3XTOUjzBXTmlU4n7/config.json"
    );
    assert_eq!(
        d.get_network_config_dir(sample()),
        "/home/u/.config/vmm/networks/xYyfzn3XTOUjzBXTmlU4n7"
    );
    assert_eq!(
        d.get_network_config_file_path(sample()),
        "/home/u/.config/vmm/networks/xYyfzn3XTOUjzBXTmlU4n7/config.json"
    );
}

#[test]
fn cache_paths() {
    let d = dirs();
    assert_eq!(d.get_image_download_dir(), "/home/u/.cache/vmm/downloads");
    assert_eq!(d.get_image_download_path(0), "/home/u/.cache/vmm/downloads/0.download");
    assert_eq!(d.get_image_download_path(42), "/home/u/.cache/vmm/downloads/42.download");
    assert_eq!(d.get_image_cache_path("abc123"), "/home/u/.cache/vmm/images/abc123");
    assert_eq!(
        d.get_machine_cache_dir(sample()),
        "/home/u/.cache/vmm/machines/xYyfzn3XTOUjzBXTmlU4n7"
    );
}

#[test]
fn state_paths() {
    let d = dirs();
    assert_eq!(d.get_instances_dir(), "/home/u/.local/state/vmm/instances");
    assert_eq!(
        d.get_instance_state_dir(sample()),
        "/home/u/.local/state/vmm/instances/xYyfzn3XTOUjzBXTmlU4n7"
    );
    assert_eq!(
        d.get_instance_state_file_path(sample()),
        "/home/u/.local/state/vmm/instances/xYyfzn3XTOUjzBXTmlU4n7/state.json"
    );
    assert_eq!(
        d.get_machine_log_dir(sample()),
        "/home/u/.local/state/vmm/machines/xYyfzn3XTOUjzBXTmlU4n7/logs"
    );
    assert_eq!(
        d.get_instance_log_dir(sample()),
        "/home/u/.local/state/vmm/instances/xYyfzn3XTOUjzBXTmlU4n7/logs"
    );
}

#[test]
fn entries_are_read_as_ids() {
    let d = dirs();
    let names = vec!["xYyfzn3XTOUjzBXTmlU4n7".to_string(), "8chF7tm8n9klfT5MGD24n7".to_string()];
    assert_eq!(d.get_machine_config_ids(&names), Ok(vec![sample(), Id(0)]));
    assert_eq!(d.get_network_config_ids(&names), Ok(vec![sample(), Id(0)]));
    assert_eq!(d.get_instance_state_ids(&vec![]), Ok(vec![]));
    let bad = vec!["8chF7tm8n9klfT5MGD24n7".to_string(), "not an id".to_string()];
    assert_eq!(d.get_instance_state_ids(&bad), Err(IdError::BadCharacter));
    let short = vec!["abc".to_string(), "not an id".to_string()];
    assert_eq!(d.get_instance_state_ids(&short), Err(IdError::BadLength));
}

#[test]
fn stream_and_source_names() {
    assert_eq!(LogStream::Stdout.as_ref(), "stdout");
    assert_eq!(LogStream::Stderr.as_ref(), "stderr");
    assert_eq!(LogSource::CloudInit.as_ref(), "cloud-init");
    assert_eq!(LogSource::Qemu.as_ref(), "qemu");
    assert_eq!(LogSource::Virtiofs.as_ref(), "virtiofs");
}

#[test]
fn machine_log_file_is_named_by_source_day_and_stream() {
    let line = LogLine::machine(
        sample(),
        86_400 * 19_000 + 86_399,
        LogStream::Stderr,
        LogSource::CloudInit,
        "hello\n".to_string(),
    );
    assert_eq!(line.id, LogId::Machine(sample()));
    assert_eq!(line.file_name(), "cloud-init.19000.stderr");
    let write = Logger::new(dirs()).log(line);
    assert_eq!(write.dir, "/home/u/.local/state/vmm/machines/xYyfzn3XTOUjzBXTmlU4n7/logs");
    assert_eq!(
        write.path,
        "/home/u/.local/state/vmm/machines/xYyfzn3XTOUjzBXTmlU4n7/logs/cloud-init.19000.stderr"
    );
    assert_eq!(write.text, "hello\n");
}

#[test]
fn instance_log_file_carries_the_boot_sequence() {
    let line = LogLine::instance(
        sample(),
        3,
        86_400 * 2,
        LogStream::Stdout,
        LogSource::Qemu,
        "x".to_string(),
    );
    assert_eq!(line.id, LogId::Instance(sample(), 3));
    assert_eq!(line.file_name(), "qemu.2-3.stdout");
    let write = Logger::new(dirs()).log(line);
    assert_eq!(
        write.path,
        "/home/u/.local/state/vmm/instances/xYyfzn3XTOUjzBXTmlU4n7/logs/qemu.2-3.stdout"
    );
    let early = LogLine::instance(sample(), 0, 5, LogStream::Stderr, LogSource::Virtiofs, String::new());
    assert_eq!(early.file_name(), "virtiofs.0-0.stderr");
}
