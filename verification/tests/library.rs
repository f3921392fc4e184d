use updatehub::address::AbortDownloadResponse;
use updatehub::address::ProbeResponse;
use updatehub::address::Response;
use updatehub::address::StateResponse;
use updatehub::channel::Channel;
use updatehub::clock::Clock;
use updatehub::error::InstallationError;
use updatehub::error::PackageError;
use updatehub::error::TransitionError;
use updatehub::firmware::transition_of;
use updatehub::firmware::trim;
use updatehub::firmware::CallbackOutput;
use updatehub::firmware::InstallationSet;
use updatehub::firmware::Metadata;
use updatehub::firmware::Transition;
use updatehub::http_api::respond_to;
use updatehub::http_api::route;
use updatehub::http_api::Body;
use updatehub::http_api::Endpoint;
use updatehub::http_api::HttpResponse;
use updatehub::logger::MemoryLog;
use updatehub::machine::Context;
use updatehub::runtime_settings::RuntimeSettings;
use updatehub::settings::Firmware;
use updatehub::settings::Network;
use updatehub::settings::Polling;
use updatehub::settings::Settings;
use updatehub::settings::Storage;
use updatehub::startup::after_rollback;
use updatehub::startup::after_validation;
use updatehub::startup::handle_startup_callbacks;
use updatehub::startup::mark_persistency;
use updatehub::startup::start;
use updatehub::startup::StartupAction;
use updatehub::startup::ValidationAction;
use updatehub::states::accept;
use updatehub::states::find_obstacle;
use updatehub::states::poll_step;
use updatehub::states::Answer;
use updatehub::states::State;
use updatehub::states::StepTransition;
use updatehub::states::Verified;
use updatehub::target_type::DeviceProbe;
use updatehub::target_type::TargetError;
use updatehub::target_type::TargetType;
use updatehub::text::holds;
use updatehub::text::same;
use updatehub::update_package::Object;
use updatehub::update_package::Signature;
use updatehub::update_package::SupportedHardware;
use updatehub::update_package::UpdatePackage;

fn config(interval: u64, jitter: u64, read_only: bool) -> Settings {
    Settings {
        network: Network { server_address: "http://server".to_string(), listen_socket: "localhost:8080".to_string() },
        polling: Polling { enabled: true, interval, jitter },
        storage: Storage { runtime_settings: "/var/rs.conf".to_string(), read_only },
        firmware: Firmware { metadata: "/meta".to_string() },
    }
}

fn device() -> Metadata {
    Metadata { product_uid: "uid".to_string(), version: "1".to_string(), hardware: "board-a".to_string() }
}

fn context(interval: u64, jitter: u64, last: i64) -> Context {
    let mut rs = RuntimeSettings::new(true);
    rs.set_last_polling(last);
    Context::new(config(interval, jitter, false), rs, device())
}

fn pkg(hashes: &[&str]) -> UpdatePackage {
    UpdatePackage {
        uid: "u".to_string(),
        supported_hardware: SupportedHardware::List(vec!["board-a".to_string(), "board-b".to_string()]),
        objects: hashes
            .iter()
            .map(|h| Object { sha256sum: h.to_string(), target: TargetType::Device(format!("/dev/{}", h)) })
            .collect(),
    }
}

fn strings(items: &[&str]) -> Vec<String> {
    items.iter().map(|s| s.to_string()).collect()
}

#[test]
fn deserialize() {
    let mut device = serde_json::Map::new();
    device.insert("target-type".to_string(), serde_json::Value::String("device".to_string()));
    device.insert("target".to_string(), serde_json::Value::String("/dev/sdb".to_string()));
    let device = serde_json::Value::Object(device);
    assert_eq!(
        TargetType::Device("/dev/sdb".to_string()),
        TargetType::from_tagged(
            device["target-type"].as_str().unwrap(),
            device["target"].as_str().unwrap().to_string()
        )
        .unwrap()
    );
    let mut volume = serde_json::Map::new();
    volume.insert("target-type".to_string(), serde_json::Value::String("ubivolume".to_string()));
    volume.insert("target".to_string(), serde_json::Value::String("system1".to_string()));
    let volume = serde_json::Value::Object(volume);
    assert_eq!(
        TargetType::UBIVolume("system1".to_string()),
        TargetType::from_tagged(
            volume["target-type"].as_str().unwrap(),
            volume["target"].as_str().unwrap().to_string()
        )
        .unwrap()
    );
}

#[test]
fn target_kinds_are_lower_case() {
    assert_eq!(TargetType::from_tagged("mtdname", "boot".to_string()), Some(TargetType::MTDName("boot".to_string())));
    assert_eq!(TargetType::from_tagged("Device", "/dev/sdb".to_string()), None);
    assert_eq!(TargetType::from_tagged("", "x".to_string()), None);
    assert_eq!(TargetType::from_tagged("ubi", "x".to_string()), None);
}

#[test]
fn a_device_has_to_exist_and_to_be_writable() {
    let target = TargetType::Device("/dev/sdb".to_string());
    assert_eq!(target.valid(&DeviceProbe { exists: true, read_only: Ok(false) }), Ok(&target));
    assert_eq!(target.valid(&DeviceProbe { exists: false, read_only: Ok(false) }), Err(TargetError::Missing));
    assert_eq!(
        target.valid(&DeviceProbe { exists: false, read_only: Err("denied".to_string()) }),
        Err(TargetError::Missing)
    );
    assert_eq!(
        target.valid(&DeviceProbe { exists: true, read_only: Err("denied".to_string()) }),
        Err(TargetError::Unreadable("denied".to_string()))
    );
    assert_eq!(target.valid(&DeviceProbe { exists: true, read_only: Ok(true) }), Err(TargetError::ReadOnly));
    let missing = DeviceProbe { exists: false, read_only: Ok(true) };
    let volume = TargetType::UBIVolume("system1".to_string());
    assert_eq!(volume.valid(&missing), Ok(&volume));
    let partition = TargetType::MTDName("boot".to_string());
    assert_eq!(partition.valid(&missing), Ok(&partition));
    assert_eq!(TargetError::Missing.message(), "Target device does not exists");
    assert_eq!(TargetError::ReadOnly.message(), "User doesn't have write permission on target device");
    assert_eq!(TargetError::Unreadable("denied".to_string()).message(), "denied");
}

#[test]
fn error_messages() {
    let s = |t: &str| t.to_string();
    assert_eq!(TransitionError::InvalidRequest.message(), "Request to external link failed");
    assert_eq!(TransitionError::ObjectsNotReady.message(), "Not all objects are ready for use");
    assert_eq!(TransitionError::Client(s("x")).message(), "Client error: x");
    assert_eq!(TransitionError::Firmware(s("x")).message(), "Firmware error: x");
    assert_eq!(
        TransitionError::Installation(InstallationError::Backend(s("x"))).message(),
        "Installation error: x"
    );
    assert_eq!(
        TransitionError::Installation(InstallationError::Target(TargetError::Missing)).message(),
        "Installation error: Target device does not exists"
    );
    assert_eq!(TransitionError::RuntimeSettings(s("x")).message(), "Runtime settings error: x");
    assert_eq!(
        TransitionError::UpdatePackage(PackageError::Invalid(s("x"))).message(),
        "Update package error: x"
    );
    assert_eq!(
        TransitionError::UpdatePackage(PackageError::UnsupportedHardware).message(),
        "Update package error: Incompatible hardware"
    );
    assert_eq!(TransitionError::Uncompress(s("x")).message(), "Uncompress error: x");
    assert_eq!(TransitionError::Serialization(s("x")).message(), "Serde error: x");
    assert_eq!(TransitionError::Io(s("x")).message(), "Update package error: x");
    assert_eq!(TransitionError::Mailbox(s("x")).message(), "Mailbox error: x");
    assert_eq!(TransitionError::Process(s("x")).message(), "Process error: x");
    assert!(TransitionError::Mailbox(s("closed")).is_fatal());
    assert!(!TransitionError::Client(s("x")).is_fatal());
    assert!(!TransitionError::InvalidRequest.is_fatal());
}

#[test]
fn trimming() {
    assert_eq!(trim(""), "");
    assert_eq!(trim("  \t\n"), "");
    assert_eq!(trim("cancel"), "cancel");
    assert_eq!(trim(" \r\n cancel\n"), "cancel");
    assert_eq!(trim("a b "), "a b");
    assert_eq!(trim("\u{3000}é x\u{85}\u{a0}"), "é x");
    for text in ["", " a", "a ", "\u{2003}a\u{2028}b\u{205f}", "\u{200b}a", "x\u{1680}"] {
        assert_eq!(trim(text), text.trim());
    }
}

#[test]
fn callback_answers() {
    assert_eq!(transition_of(CallbackOutput::Missing), Ok(Transition::Continue));
    assert_eq!(transition_of(CallbackOutput::Completed("".to_string())), Ok(Transition::Continue));
    assert_eq!(transition_of(CallbackOutput::Completed("\n".to_string())), Ok(Transition::Continue));
    assert_eq!(transition_of(CallbackOutput::Completed("cancel".to_string())), Ok(Transition::Cancel));
    assert_eq!(transition_of(CallbackOutput::Completed("cancel\n".to_string())), Ok(Transition::Cancel));
    assert_eq!(
        transition_of(CallbackOutput::Completed("Cancel".to_string())),
        Err(TransitionError::Firmware("Cancel".to_string()))
    );
    assert_eq!(
        transition_of(CallbackOutput::Completed("can cel".to_string())),
        Err(TransitionError::Firmware("can cel".to_string()))
    );
    assert_eq!(
        transition_of(CallbackOutput::Failed("exit status 1".to_string())),
        Err(TransitionError::Process("exit status 1".to_string()))
    );
}

#[test]
fn installation_sets() {
    assert_eq!(InstallationSet::A.index(), 0);
    assert_eq!(InstallationSet::B.index(), 1);
    assert_eq!(InstallationSet::from_index(0), Some(InstallationSet::A));
    assert_eq!(InstallationSet::from_index(1), Some(InstallationSet::B));
    assert_eq!(InstallationSet::from_index(2), None);
    assert_eq!(InstallationSet::A.other(), InstallationSet::B);
    assert_eq!(InstallationSet::B.other(), InstallationSet::A);
}

#[test]
fn channel_is_bounded_and_in_order() {
    let mut c: Channel<u32> = Channel::new(2);
    assert_eq!(c.capacity(), 2);
    assert!(c.is_empty());
    assert_eq!(c.try_recv(), None);
    assert_eq!(c.try_send(1), Ok(()));
    assert_eq!(c.try_send(2), Ok(()));
    assert!(c.is_full());
    assert_eq!(c.try_send(3), Err(3));
    assert_eq!(c.len(), 2);
    assert_eq!(c.try_recv(), Some(1));
    assert_eq!(c.try_send(4), Ok(()));
    assert_eq!(c.try_recv(), Some(2));
    assert_eq!(c.try_recv(), Some(4));
    assert_eq!(c.try_recv(), None);
    let mut none: Channel<u32> = Channel::new(0);
    assert_eq!(none.try_send(1), Err(1));
}

#[test]
fn memory_log_keeps_lines_once_started() {
    let mut log = MemoryLog::new();
    log.record("dropped");
    assert_eq!(log.get_memory_log(), "");
    log.start_memory_logging();
    log.record("one");
    log.record("two");
    assert_eq!(log.get_memory_log(), "one\ntwo\n");
    assert!(log.enabled);
}

#[test]
fn runtime_settings_changes() {
    let mut rs = RuntimeSettings::new(false);
    assert!(!rs.is_polling_enabled());
    assert_eq!(rs.last_polling(), 0);
    assert_eq!(rs.retries(), 0);
    assert_eq!(rs.custom_server_address(), None);
    assert_eq!(rs.upgrade_to_installation(), None);
    assert!(!rs.is_persistent());
    assert!(!rs.needs_save());
    rs.set_last_polling(10);
    assert_eq!(rs.last_polling(), 10);
    // Not persistent: nothing is written, whatever changes.
    assert!(!rs.needs_save());
    rs.enable_persistency();
    assert!(rs.is_persistent());
    assert!(rs.needs_save());
    rs.mark_saved();
    assert!(!rs.needs_save());
    rs.set_custom_server_address("http://x".to_string());
    assert_eq!(rs.custom_server_address(), Some("http://x"));
    assert!(rs.needs_save());
    rs.mark_saved();
    rs.set_upgrade_to_installation(InstallationSet::B);
    assert_eq!(rs.upgrade_to_installation(), Some(InstallationSet::B));
    assert!(rs.needs_save());
    rs.mark_saved();
    rs.reset_installation_settings();
    assert_eq!(rs.upgrade_to_installation(), None);
    assert!(rs.needs_save());
    assert_eq!(rs.last_polling(), 10);
    assert_eq!(rs.clone(), rs);
}

#[test]
fn last_polling_does_not_go_back() {
    let mut rs = RuntimeSettings::new(true);
    let mut before = rs.last_polling();
    for now in [5, 5, 9, 100, 100, 4000] {
        rs.set_last_polling(now);
        assert!(rs.last_polling() >= before);
        before = rs.last_polling();
        rs.set_custom_server_address("a".to_string());
        rs.reset_installation_settings();
        assert_eq!(rs.last_polling(), before);
    }
}

#[test]
fn server_address_prefers_the_override() {
    let mut ctx = context(60, 0, 0);
    assert_eq!(ctx.server_address(), "http://server");
    assert_eq!(ctx.server_address_owned(), "http://server");
    ctx.runtime_settings.set_custom_server_address("http://mine".to_string());
    assert_eq!(ctx.server_address(), "http://mine");
    assert_eq!(ctx.probe_request().server_address, "http://mine");
    assert_eq!(ctx.communication.capacity(), 10);
    assert_eq!(ctx.waker.capacity(), 1);
}

#[test]
fn poll_waits_for_what_is_left_of_the_interval() {
    assert_eq!(poll_step(&context(60, 0, 1000), Clock { now: 1000, nanos: 5 }), StepTransition::Delayed(60));
    assert_eq!(poll_step(&context(60, 0, 1000), Clock { now: 1059, nanos: 5 }), StepTransition::Delayed(1));
    assert_eq!(poll_step(&context(60, 0, 1000), Clock { now: 1060, nanos: 5 }), StepTransition::Immediate);
    assert_eq!(poll_step(&context(60, 0, 1000), Clock { now: 99999, nanos: 5 }), StepTransition::Immediate);
    assert_eq!(poll_step(&context(0, 0, 1000), Clock { now: 1000, nanos: 5 }), StepTransition::Immediate);
    // The jitter does not put off a poll that is due.
    assert_eq!(poll_step(&context(60, 30, 1000), Clock { now: 1060, nanos: 17 }), StepTransition::Immediate);
    assert_eq!(poll_step(&context(60, 30, 1000), Clock { now: 1075, nanos: 29 }), StepTransition::Immediate);
    assert_eq!(poll_step(&context(60, 30, 1000), Clock { now: 1059, nanos: 17 }), StepTransition::Delayed(18));
    // The last poll lies ahead of the clock: the whole way is waited.
    assert_eq!(poll_step(&context(60, 0, 1000), Clock { now: 900, nanos: 0 }), StepTransition::Delayed(160));
}

#[test]
fn poll_jitter_stays_within_its_bound() {
    // The draw, brought into 0..=10, is added to the interval.
    assert_eq!(poll_step(&context(60, 10, 1000), Clock { now: 1000, nanos: 0 }), StepTransition::Delayed(60));
    assert_eq!(poll_step(&context(60, 10, 1000), Clock { now: 1000, nanos: 7 }), StepTransition::Delayed(67));
    assert_eq!(poll_step(&context(60, 10, 1000), Clock { now: 1000, nanos: 10 }), StepTransition::Delayed(70));
    assert_eq!(poll_step(&context(60, 10, 1000), Clock { now: 1000, nanos: 11 }), StepTransition::Delayed(60));
    assert_eq!(
        poll_step(&context(60, 10, 1000), Clock { now: 1000, nanos: 999_999_999 }),
        StepTransition::Delayed(60 + 999_999_999 % 11)
    );
    assert_eq!(
        poll_step(&context(60, u64::MAX, 1000), Clock { now: 1000, nanos: 123 }),
        StepTransition::Delayed(183)
    );
    for nanos in [0u32, 1, 99, 12345, u32::MAX] {
        match poll_step(&context(60, 30, 0), Clock { now: 0, nanos }) {
            StepTransition::Delayed(d) => assert!((60..=90).contains(&d)),
            other => panic!("unexpected {:?}", other),
        }
    }
}

#[test]
fn poll_delay_is_cut_at_the_ends() {
    assert_eq!(
        poll_step(&context(u64::MAX, 0, i64::MAX), Clock { now: i64::MIN, nanos: 0 }),
        StepTransition::Delayed(u64::MAX)
    );
    assert_eq!(
        poll_step(&context(u64::MAX, u64::MAX, i64::MAX), Clock { now: 0, nanos: u32::MAX }),
        StepTransition::Delayed(u64::MAX)
    );
    assert_eq!(poll_step(&context(0, 0, i64::MIN), Clock { now: i64::MAX, nanos: 0 }), StepTransition::Immediate);
    assert_eq!(
        poll_step(&context(u64::MAX, 0, 0), Clock { now: 1, nanos: 0 }),
        StepTransition::Delayed(u64::MAX - 1)
    );
}

#[test]
fn hardware_has_to_be_supported() {
    assert!(pkg(&["a"]).compatible_with("board-a"));
    assert!(pkg(&["a"]).compatible_with("board-b"));
    assert!(!pkg(&["a"]).compatible_with("board-c"));
    assert!(!pkg(&["a"]).compatible_with(""));
    let any = UpdatePackage { supported_hardware: SupportedHardware::Any, ..pkg(&[]) };
    assert!(any.compatible_with("whatever"));
    assert_eq!(pkg(&[]).package_uid(), "u");
}

#[test]
fn package_is_checked_before_the_download() {
    let ctx = context(60, 0, 0);
    let ok = || DeviceProbe { exists: true, read_only: Ok(false) };
    let gone = || DeviceProbe { exists: false, read_only: Ok(false) };
    let locked = || DeviceProbe { exists: true, read_only: Ok(true) };
    let found = |devices: Vec<DeviceProbe>| Verified { devices };
    assert_eq!(accept(&pkg(&["a", "b"]), &ctx, &found(vec![ok(), ok()])), Ok(()));
    assert_eq!(accept(&pkg(&[]), &ctx, &found(vec![])), Ok(()));
    assert_eq!(
        accept(&pkg(&["a", "b"]), &ctx, &found(vec![ok(), gone()])),
        Err(TransitionError::Installation(InstallationError::Target(TargetError::Missing)))
    );
    assert_eq!(
        accept(&pkg(&["a", "b"]), &ctx, &found(vec![locked(), gone()])),
        Err(TransitionError::Installation(InstallationError::Target(TargetError::ReadOnly)))
    );
    assert_eq!(accept(&pkg(&["a", "b"]), &ctx, &found(vec![ok()])), Err(TransitionError::InvalidRequest));
    let mut other = context(60, 0, 0);
    other.firmware.hardware = "board-z".to_string();
    assert_eq!(
        accept(&pkg(&["a"]), &other, &found(vec![gone()])),
        Err(TransitionError::UpdatePackage(PackageError::UnsupportedHardware))
    );
    assert_eq!(find_obstacle(&pkg(&["a", "b"]).objects, &vec![ok(), locked()]), Some(TargetError::ReadOnly));
    assert_eq!(find_obstacle(&pkg(&["a"]).objects, &vec![ok()]), None);
}

#[test]
fn prepare_download_fails_on_what_the_outside_found() {
    let mut ctx = context(60, 0, 0);
    let clock = Clock { now: 0, nanos: 0 };
    let sign = || Signature { bytes: vec![9] };
    let state = State::PrepareDownload { package: pkg(&["a"]), sign: sign() };
    let bad = TransitionError::UpdatePackage(PackageError::Invalid("signature mismatch".to_string()));
    assert_eq!(state.progress(&mut ctx, Answer::Verified(Err(bad.clone())), clock), Err(bad));
    let state = State::PrepareDownload { package: pkg(&["a"]), sign: sign() };
    let found = Verified { devices: vec![DeviceProbe { exists: true, read_only: Ok(false) }] };
    assert_eq!(
        state.progress(&mut ctx, Answer::Verified(Ok(found)), clock),
        Ok((State::Download { package: pkg(&["a"]), sign: sign() }, StepTransition::Immediate))
    );
}

#[test]
fn install_needs_every_object() {
    let clock = Clock { now: 0, nanos: 0 };
    let mut ctx = context(60, 0, 0);
    let state = State::Install { package: pkg(&["a", "b"]), installation_set: InstallationSet::A };
    let r = state.progress(&mut ctx, Answer::Installed { present: strings(&["a"]), outcome: Ok(()) }, clock);
    assert_eq!(r, Err(TransitionError::ObjectsNotReady));
    assert_eq!(ctx.runtime_settings.upgrade_to_installation(), None);

    let state = State::Install { package: pkg(&["a", "b"]), installation_set: InstallationSet::A };
    let failed = TransitionError::Installation(InstallationError::Backend("no space".to_string()));
    let r = state.progress(
        &mut ctx,
        Answer::Installed { present: strings(&["a", "b"]), outcome: Err(failed.clone()) },
        clock,
    );
    assert_eq!(r, Err(failed));
    assert_eq!(ctx.runtime_settings.upgrade_to_installation(), None);

    let state = State::Install { package: pkg(&["a", "b"]), installation_set: InstallationSet::A };
    let r = state.progress(&mut ctx, Answer::Installed { present: strings(&["b", "a"]), outcome: Ok(()) }, clock);
    assert_eq!(r, Ok((State::Reboot, StepTransition::Immediate)));
    assert_eq!(ctx.runtime_settings.upgrade_to_installation(), Some(InstallationSet::A));
}

#[test]
fn probe_state_outcomes() {
    let clock = Clock { now: 77, nanos: 0 };
    let mut ctx = context(60, 0, 10);
    assert_eq!(
        State::Probe.progress(&mut ctx, Answer::Probed(Ok(updatehub::cloud::ProbeResponse::ExtraPoll(15))), clock),
        Ok((State::EntryPoint, StepTransition::Delayed(15)))
    );
    assert_eq!(ctx.runtime_settings.last_polling(), 10);
    assert_eq!(
        State::Probe.progress(&mut ctx, Answer::Probed(Ok(updatehub::cloud::ProbeResponse::NoUpdate)), clock),
        Ok((State::EntryPoint, StepTransition::Immediate))
    );
    assert_eq!(ctx.runtime_settings.last_polling(), 77);
    assert_eq!(
        State::Probe.progress(&mut ctx, Answer::Probed(Err(TransitionError::Client("down".to_string()))), clock),
        Err(TransitionError::Client("down".to_string()))
    );
    assert_eq!(State::Reboot.progress(&mut ctx, Answer::Rebooted(Err(TransitionError::Process("x".to_string()))), clock),
        Err(TransitionError::Process("x".to_string())));
}

#[test]
fn progression_is_deterministic() {
    let clock = Clock { now: 1234, nanos: 56 };
    for _ in 0..3 {
        let mut one = context(60, 7, 1200);
        let mut two = context(60, 7, 1200);
        assert_eq!(
            State::Poll.progress(&mut one, Answer::Nothing, clock),
            State::Poll.progress(&mut two, Answer::Nothing, clock)
        );
        assert_eq!(one.runtime_settings, two.runtime_settings);
        let a = State::Probe.progress(&mut one, Answer::Probed(Ok(updatehub::cloud::ProbeResponse::NoUpdate)), clock);
        let b = State::Probe.progress(&mut two, Answer::Probed(Ok(updatehub::cloud::ProbeResponse::NoUpdate)), clock);
        assert_eq!(a, b);
        assert_eq!(one.runtime_settings, two.runtime_settings);
    }
}

#[test]
fn state_names() {
    let p = || pkg(&[]);
    let s = || Signature { bytes: vec![] };
    assert_eq!(State::Park.name(), "park");
    assert_eq!(State::EntryPoint.name(), "entry_point");
    assert_eq!(State::Poll.name(), "poll");
    assert_eq!(State::Probe.name(), "probe");
    assert_eq!(State::PrepareDownload { package: p(), sign: s() }.name(), "prepare_download");
    assert_eq!(State::DirectDownload { url: String::new() }.name(), "direct_download");
    assert_eq!(State::PrepareLocalInstall { update_file: String::new() }.name(), "prepare_local_install");
    assert_eq!(State::Download { package: p(), sign: s() }.name(), "download");
    assert_eq!(State::Install { package: p(), installation_set: InstallationSet::A }.name(), "install");
    assert_eq!(State::Reboot.name(), "reboot");
    assert_eq!(State::from(TransitionError::ObjectsNotReady).name(), "error");
    assert_eq!(State::Reboot.report_names(), Some(("rebooting", "rebooted")));
    assert_eq!(State::Park.report_names(), None);
    assert!(State::Poll.needs_clock(&Answer::Nothing));
    assert!(State::Probe.needs_clock(&Answer::Probed(Ok(updatehub::cloud::ProbeResponse::NoUpdate))));
    assert!(!State::Probe.needs_clock(&Answer::Probed(Ok(updatehub::cloud::ProbeResponse::ExtraPoll(1)))));
    assert!(!State::Park.needs_clock(&Answer::Nothing));
    assert!(!State::Poll.needs_clock(&Answer::Rebooted(Ok(()))));
    assert!(State::Poll.is_preemptive_state());
    assert!(!State::Probe.is_preemptive_state());
    assert!(State::DirectDownload { url: String::new() }.is_handling_download());
    assert!(!State::Install { package: p(), installation_set: InstallationSet::A }.is_handling_download());
}

#[test]
fn only_missing_objects_are_fetched() {
    let package = pkg(&["a", "b", "c"]);
    assert_eq!(package.missing_objects(&strings(&[])), strings(&["a", "b", "c"]));
    assert_eq!(package.missing_objects(&strings(&["b"])), strings(&["a", "c"]));
    assert_eq!(package.missing_objects(&strings(&["c", "x", "a", "b"])), strings(&[]));
    // An object that the package names twice is fetched once.
    assert_eq!(pkg(&["a", "b", "a", "b", "c"]).missing_objects(&strings(&["c"])), strings(&["a", "b"]));
    assert!(package.objects_ready(&strings(&["c", "b", "a", "z"])));
    assert!(!package.objects_ready(&strings(&["c", "b"])));
    assert!(pkg(&[]).objects_ready(&strings(&[])));
}

#[test]
fn interrupted_download_ends_as_an_uninterrupted_one() {
    let package = pkg(&["a", "b", "c", "b", "d"]);
    let start = strings(&["c", "q"]);
    let plan = package.missing_objects(&start);
    let mut whole = start.clone();
    whole.extend(plan.iter().cloned());
    whole.sort();
    for done in 0..=plan.len() {
        let mut store = start.clone();
        store.extend(plan[..done].iter().cloned());
        let again = package.missing_objects(&store);
        store.extend(again);
        store.sort();
        assert_eq!(store, whole);
        assert!(package.objects_ready(&store));
    }
}

#[test]
fn rollback_on_wrong_set() {
    let settings = config(60, 0, false);
    let mut rs = RuntimeSettings::new(true);
    mark_persistency(&settings, &mut rs);
    assert!(rs.is_persistent());
    rs.update.upgrade_to_installation = InstallationSet::from_index(1);
    let active = InstallationSet::from_index(0).unwrap();
    assert_eq!(handle_startup_callbacks(&rs, Ok(active)), Ok(StartupAction::Rollback));
    assert_eq!(after_rollback(&mut rs, CallbackOutput::Completed("done".to_string())), Ok(()));
    assert_eq!(rs.upgrade_to_installation(), None);
    assert!(rs.needs_save());
    let m = start(settings, rs, device());
    assert_eq!(m.state, State::EntryPoint);
    assert_eq!(m.context.communication.len(), 0);
    assert_eq!(m.context.waker.len(), 0);
}

#[test]
fn startup_validates_the_expected_set() {
    let mut rs = RuntimeSettings::new(true);
    assert_eq!(handle_startup_callbacks(&rs, Ok(InstallationSet::A)), Ok(StartupAction::Proceed));
    assert_eq!(
        handle_startup_callbacks(&rs, Err(TransitionError::Process("x".to_string()))),
        Ok(StartupAction::Proceed)
    );
    rs.set_upgrade_to_installation(InstallationSet::B);
    assert_eq!(handle_startup_callbacks(&rs, Ok(InstallationSet::B)), Ok(StartupAction::Validate));
    assert_eq!(handle_startup_callbacks(&rs, Ok(InstallationSet::A)), Ok(StartupAction::Rollback));
    assert_eq!(
        handle_startup_callbacks(&rs, Err(TransitionError::Process("x".to_string()))),
        Err(TransitionError::Process("x".to_string()))
    );
    assert_eq!(
        after_validation(&mut rs, CallbackOutput::Completed("cancel".to_string())),
        Ok(ValidationAction::SwapAndReboot)
    );
    assert_eq!(rs.upgrade_to_installation(), Some(InstallationSet::B));
    assert_eq!(
        after_validation(&mut rs, CallbackOutput::Failed("boom".to_string())),
        Err(TransitionError::Process("boom".to_string()))
    );
    assert_eq!(rs.upgrade_to_installation(), Some(InstallationSet::B));
    assert_eq!(after_validation(&mut rs, CallbackOutput::Missing), Ok(ValidationAction::MarkValidated));
    assert_eq!(rs.upgrade_to_installation(), None);
    rs.set_upgrade_to_installation(InstallationSet::A);
    assert_eq!(
        after_rollback(&mut rs, CallbackOutput::Failed("boom".to_string())),
        Err(TransitionError::Process("boom".to_string()))
    );
    assert_eq!(rs.upgrade_to_installation(), Some(InstallationSet::A));
    assert_eq!(after_rollback(&mut rs, CallbackOutput::Missing), Ok(()));
    assert_eq!(rs.upgrade_to_installation(), None);
}

#[test]
fn read_only_storage_keeps_nothing() {
    let mut rs = RuntimeSettings::new(true);
    mark_persistency(&config(60, 0, true), &mut rs);
    assert!(!rs.is_persistent());
    rs.set_last_polling(5);
    assert!(!rs.needs_save());
}

#[test]
fn routes() {
    assert_eq!(route("GET", "/info"), Some(Endpoint::Info));
    assert_eq!(route("GET", "/log"), Some(Endpoint::Log));
    assert_eq!(route("POST", "/probe"), Some(Endpoint::Probe));
    assert_eq!(route("POST", "/update/download/abort"), Some(Endpoint::AbortDownload));
    assert_eq!(route("POST", "/local-install"), Some(Endpoint::LocalInstall));
    assert_eq!(route("POST", "/remote-install"), Some(Endpoint::RemoteInstall));
    assert_eq!(route("POST", "/info"), None);
    assert_eq!(route("GET", "/probe"), None);
    assert_eq!(route("get", "/info"), None);
    assert_eq!(route("GET", "/"), None);
}

#[test]
fn answers_of_the_control_surface() {
    assert_eq!(
        respond_to(Response::AbortDownload(AbortDownloadResponse::RequestAccepted), "entry_point"),
        HttpResponse { status: 200, body: Body::Message("request accepted, download aborted") }
    );
    assert_eq!(
        respond_to(Response::AbortDownload(AbortDownloadResponse::InvalidState), "park"),
        HttpResponse { status: 400, body: Body::Error("there is no download to be aborted") }
    );
    assert_eq!(
        respond_to(Response::Probe(ProbeResponse::Busy("download")), "download"),
        HttpResponse { status: 200, body: Body::Probe { busy: true, current_state: "download" } }
    );
    assert_eq!(
        respond_to(Response::Probe(ProbeResponse::Unavailable), "entry_point"),
        HttpResponse { status: 200, body: Body::Probe { busy: false, current_state: "entry_point" } }
    );
    assert_eq!(
        respond_to(Response::Probe(ProbeResponse::Delayed(3)), "poll"),
        HttpResponse { status: 200, body: Body::Probe { busy: false, current_state: "poll" } }
    );
    assert_eq!(
        respond_to(Response::LocalInstall(StateResponse::RequestAccepted("poll")), "prepare_local_install"),
        HttpResponse { status: 200, body: Body::State("poll") }
    );
    assert_eq!(
        respond_to(Response::RemoteInstall(StateResponse::InvalidState("reboot")), "reboot"),
        HttpResponse { status: 400, body: Body::State("reboot") }
    );
}

#[test]
fn texts_are_compared_and_found() {
    assert!(same("", ""));
    assert!(same("abc", "abc"));
    assert!(!same("abc", "abd"));
    assert!(!same("abc", "ab"));
    assert!(holds(&strings(&["a", "b"]), "b"));
    assert!(!holds(&strings(&["a", "b"]), "c"));
    assert!(!holds(&strings(&[]), ""));
}
