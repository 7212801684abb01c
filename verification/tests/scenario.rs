use hydra::address::HostAddress;
use hydra::docker::DockerBackend;
use hydra::error::MigrationError;
use hydra::migration::Migration;
use hydra::provider::{LeadTime, Provider};
use hydra::step::{Event, Request, Step};
use std::cell::RefCell;
use std::collections::{BTreeMap, HashSet};
use std::io::{Cursor, Write};
use zip::write::FileOptions;
use zip::{CompressionMethod, ZipWriter};

/// A source host, a destination host and the link between them, all in memory.
struct World {
    running: Vec<String>,
    state_dir: BTreeMap<String, Vec<u8>>,
    local_files: BTreeMap<String, Vec<u8>>,
    session_to: Option<HostAddress>,
    subchannel_open: bool,
    remote_open: Option<String>,
    remote_pending: Vec<u8>,
    remote_files: BTreeMap<String, Vec<u8>>,
    performed: Vec<String>,
    refuse_checkpoint_of: Option<String>,
    cost_per_request: u128,
    spent: u128,
}

impl World {
    fn new(running: &[&str], cost_per_request: u128) -> World {
        let mut state_dir = BTreeMap::new();
        for id in running {
            state_dir.insert(format!("{}/config.v2.json", id), format!("config of {}", id).into_bytes());
        }
        state_dir.insert("unrelated/hostname".to_string(), b"bystander".to_vec());
        World {
            running: running.iter().map(|id| id.to_string()).collect(),
            state_dir,
            local_files: BTreeMap::new(),
            session_to: None,
            subchannel_open: false,
            remote_open: None,
            remote_pending: Vec::new(),
            remote_files: BTreeMap::new(),
            performed: Vec::new(),
            refuse_checkpoint_of: None,
            cost_per_request,
            spent: 0,
        }
    }

    fn perform(&mut self, request: Request) -> Event {
        self.spent += self.cost_per_request;
        match request {
            Request::ListRunning => {
                self.performed.push("list".to_string());
                Event::Running(self.running.clone())
            }
            Request::CreateCheckpoint(checkpoint) => {
                self.performed.push(format!("checkpoint {}", checkpoint.container_id));
                if self.refuse_checkpoint_of.as_deref() == Some(checkpoint.container_id.as_str()) {
                    return Event::Failed;
                }
                let path = format!(
                    "{}/checkpoints/{}/pages-1.img",
                    checkpoint.container_id, checkpoint.checkpoint_name
                );
                let memory = format!("memory of {}", checkpoint.container_id).into_bytes();
                self.state_dir.insert(path, memory);
                Event::Succeeded
            }
            Request::OpenSession(address) => {
                self.performed.push("session".to_string());
                self.session_to = Some(address);
                Event::Succeeded
            }
            Request::OpenSubchannel => {
                self.performed.push("subchannel".to_string());
                if self.session_to.is_none() {
                    return Event::Failed;
                }
                self.subchannel_open = true;
                Event::Succeeded
            }
            Request::BuildArchive { source_dir, archive_path } => {
                self.performed.push(format!("archive {} into {}", source_dir, archive_path));
                let mut writer = ZipWriter::new(Cursor::new(Vec::new()));
                let options = FileOptions::default().compression_method(CompressionMethod::Deflated);
                for (name, contents) in &self.state_dir {
                    writer.start_file(name.as_str(), options).unwrap();
                    writer.write_all(contents).unwrap();
                }
                let bytes = writer.finish().unwrap().into_inner();
                self.local_files.insert(archive_path, bytes);
                Event::Succeeded
            }
            Request::CreateRemoteFile { remote_path } => {
                self.performed.push(format!("create {}", remote_path));
                if !self.subchannel_open {
                    return Event::Failed;
                }
                self.remote_open = Some(remote_path);
                self.remote_pending.clear();
                Event::Succeeded
            }
            Request::SendArchive { archive_path } => {
                self.performed.push(format!("send {}", archive_path));
                match (self.local_files.get(&archive_path), &self.remote_open) {
                    (Some(bytes), Some(_)) => {
                        self.remote_pending = bytes.clone();
                        Event::Succeeded
                    }
                    _ => Event::Failed,
                }
            }
            Request::Flush => {
                self.performed.push("flush".to_string());
                match self.remote_open.clone() {
                    Some(path) => {
                        self.remote_files.insert(path, self.remote_pending.clone());
                        Event::Succeeded
                    }
                    None => Event::Failed,
                }
            }
        }
    }
}

struct Announcing {
    destination: HostAddress,
    lead_nanos: u128,
}

impl Provider for Announcing {
    type Error = MigrationError;

    fn start_instance(&self, _id: String) -> Result<HostAddress, MigrationError> {
        Ok(self.destination)
    }

    fn wait_until_termination_signal(&self) -> Result<LeadTime, MigrationError> {
        let secs = (self.lead_nanos / 1_000_000_000) as u64;
        let nanos = (self.lead_nanos % 1_000_000_000) as u32;
        LeadTime::new(secs, nanos).ok_or(MigrationError::Configuration)
    }
}

#[derive(Debug, PartialEq, Eq)]
enum Outcome {
    Relocated,
    Lost,
    Failed(MigrationError),
}

/// Runs one operation to its end, giving up once the lead time is used up.
fn run<F>(world: &RefCell<World>, lead: LeadTime, mut advance: F) -> Outcome
where
    F: FnMut(Event) -> Step<()>,
{
    let mut event = Event::Begin;
    loop {
        match advance(event) {
            Step::Finished(()) => return Outcome::Relocated,
            Step::Aborted(error) => return Outcome::Failed(error),
            Step::Perform(request) => {
                let spent = world.borrow().spent;
                if lead.remaining_after(spent).is_none() {
                    return Outcome::Lost;
                }
                event = world.borrow_mut().perform(request);
            }
        }
    }
}

/// The driving loop: wait for the signal, checkpoint, migrate.
fn relocate(world: &RefCell<World>, provider: &Announcing, backend: &mut DockerBackend) -> Outcome {
    let lead = provider.wait_until_termination_signal().unwrap();
    let destination = provider.start_instance("standby".to_string()).unwrap();
    match run(world, lead, |event| backend.checkpoint(event)) {
        Outcome::Relocated => {}
        other => return other,
    }
    match run(world, lead, |event| backend.migrate(destination, event)) {
        Outcome::Relocated => {}
        other => return other,
    }
    if lead.remaining_after(world.borrow().spent).is_none() {
        return Outcome::Lost;
    }
    Outcome::Relocated
}

fn backend() -> DockerBackend {
    DockerBackend::new(Some("unix:///var/run/docker.sock".to_string())).unwrap()
}

fn restore_on_destination(world: &World, backend: &DockerBackend, dest: &str) -> BTreeMap<String, Vec<u8>> {
    let archive = world.remote_files.get("./containers.zip").unwrap().clone();
    let plan = backend.restore_containers(archive, dest);
    assert_eq!(plan.failure, None);
    let mut directory = BTreeMap::new();
    for file in plan.files {
        directory.insert(file.path, file.contents);
    }
    directory
}

#[test]
fn three_workloads_are_checkpointed_and_relocated() {
    let world = RefCell::new(World::new(&["c1", "c2", "c3"], 1_000_000));
    let provider = Announcing { destination: HostAddress::V4([198, 51, 100, 7]), lead_nanos: 120_000_000_000 };
    let mut backend = backend();
    assert_eq!(relocate(&world, &provider, &mut backend), Outcome::Relocated);

    let registry = backend.checkpoints();
    assert_eq!(registry.len(), 3);
    let names: HashSet<&str> = registry.iter().map(|c| c.checkpoint_name.as_str()).collect();
    assert_eq!(names.len(), 3);
    for (record, id) in registry.iter().zip(["c1", "c2", "c3"]) {
        assert_eq!(record.container_id, id);
        assert!(record.checkpoint_name.parse::<u64>().is_ok());
    }

    let world = world.into_inner();
    assert_eq!(world.session_to, Some(HostAddress::V4([198, 51, 100, 7])));
    assert_eq!(
        world.performed,
        vec![
            "list",
            "checkpoint c1",
            "checkpoint c2",
            "checkpoint c3",
            "session",
            "subchannel",
            "archive /var/lib/docker/containers into ./containers.zip",
            "create ./containers.zip",
            "send ./containers.zip",
            "flush",
        ]
    );

    let restored = restore_on_destination(&world, &backend, "/var/lib/docker/containers");
    assert_eq!(restored.len(), world.state_dir.len());
    for (name, contents) in &world.state_dir {
        let path = format!("/var/lib/docker/containers/{}", name);
        assert_eq!(restored.get(&path), Some(contents));
    }
    for record in registry {
        let path = format!(
            "/var/lib/docker/containers/{}/checkpoints/{}/pages-1.img",
            record.container_id, record.checkpoint_name
        );
        let memory = format!("memory of {}", record.container_id).into_bytes();
        assert_eq!(restored.get(&path), Some(&memory));
    }
    assert_eq!(
        restored.get("/var/lib/docker/containers/unrelated/hostname"),
        Some(&b"bystander".to_vec())
    );
}

#[test]
fn a_relocation_that_overruns_the_lead_time_is_a_loss_and_no_crash() {
    for lead_nanos in [1u128, 3_000_000, 4_000_001, 9_000_000, 10_000_000] {
        let world = RefCell::new(World::new(&["c1", "c2", "c3"], 1_000_000));
        let provider = Announcing { destination: HostAddress::V4([198, 51, 100, 7]), lead_nanos };
        let mut backend = backend();
        assert_eq!(relocate(&world, &provider, &mut backend), Outcome::Lost);
        if lead_nanos <= 9_000_000 {
            assert!(world.borrow().remote_files.is_empty());
        }
    }
    let world = RefCell::new(World::new(&["c1", "c2", "c3"], 1_000_000));
    let provider = Announcing { destination: HostAddress::V4([198, 51, 100, 7]), lead_nanos: 10_000_001 };
    let mut backend = backend();
    assert_eq!(relocate(&world, &provider, &mut backend), Outcome::Relocated);
    assert!(world.borrow().remote_files.contains_key("./containers.zip"));
}

#[test]
fn a_refused_checkpoint_fails_the_relocation_before_anything_is_sent() {
    let mut start = World::new(&["c1", "c2", "c3"], 1);
    start.refuse_checkpoint_of = Some("c2".to_string());
    let world = RefCell::new(start);
    let provider = Announcing { destination: HostAddress::V4([198, 51, 100, 7]), lead_nanos: 1_000_000 };
    let mut backend = backend();
    assert_eq!(relocate(&world, &provider, &mut backend), Outcome::Failed(MigrationError::Client));
    assert!(backend.checkpoints().is_empty());
    let world = world.into_inner();
    assert_eq!(world.performed, vec!["list", "checkpoint c1", "checkpoint c2"]);
    assert!(world.state_dir.keys().any(|path| path.starts_with("c1/checkpoints/")));
    assert!(world.remote_files.is_empty());
}

#[test]
fn migrating_without_a_checkpoint_relocates_the_live_directory() {
    let world = RefCell::new(World::new(&["c1"], 1));
    let lead = LeadTime::new(60, 0).unwrap();
    let mut backend = backend();
    let destination = HostAddress::V6([0; 16]);
    assert_eq!(run(&world, lead, |event| backend.migrate(destination, event)), Outcome::Relocated);
    assert!(backend.checkpoints().is_empty());
    let world = world.into_inner();
    let restored = restore_on_destination(&world, &backend, "live");
    assert_eq!(restored.len(), 2);
    assert_eq!(restored.get("live/c1/config.v2.json"), Some(&b"config of c1".to_vec()));
    assert_eq!(restored.get("live/unrelated/hostname"), Some(&b"bystander".to_vec()));
    assert!(!restored.keys().any(|path| path.contains("/checkpoints/")));
}
