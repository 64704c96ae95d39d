use memfd_recovery::error::WorkerError;
use memfd_recovery::injector::tick;
use memfd_recovery::protocol::{Action, Event, Phase, Step};
use memfd_recovery::startup::{advance, start};
use memfd_recovery::store::{Directive, StoreEntry};
use std::collections::HashMap;

/// A supervisor and a kernel in memory: what outlives a worker instance.
struct Machine {
    store: Vec<StoreEntry>,
    regions: HashMap<i32, Vec<u8>>,
    next_fd: i32,
}

/// One worker instance after startup: its phase and every request it made.
struct Instance {
    phase: Phase,
    requests: Vec<Action>,
}

impl Machine {
    fn new() -> Machine {
        Machine { store: Vec::new(), regions: HashMap::new(), next_fd: 3 }
    }

    fn serve(&mut self, action: &Action) -> Event {
        match action {
            Action::ListStore { .. } => Event::Listed { entries: self.store.clone() },
            Action::MeasureRegion { fd } => match self.regions.get(fd) {
                Some(bytes) => Event::Measured { size: bytes.len() as u64 },
                None => Event::Failed,
            },
            Action::CreateRegion { size, .. } => {
                let fd = self.next_fd;
                self.next_fd += 1;
                self.regions.insert(fd, vec![0u8; *size as usize]);
                Event::Created { fd }
            }
            Action::Register { directives, fds, .. } => {
                let mut keep = false;
                let mut name = None;
                for directive in directives {
                    match directive {
                        Directive::KeepInStore => keep = true,
                        Directive::Name(text) => name = Some(text.clone()),
                        _ => {}
                    }
                }
                match (keep, name) {
                    (true, Some(name)) => {
                        for fd in fds {
                            self.store.push(StoreEntry { fd: *fd, name: name.clone() });
                        }
                        Event::Notified { delivered: true }
                    }
                    _ => Event::Failed,
                }
            }
            Action::MapRegion { fd, len, .. } => match self.regions.get(fd) {
                Some(_) => Event::Mapped { len: *len },
                None => Event::Failed,
            },
            Action::ReportReady { .. } => Event::Notified { delivered: true },
            _ => Event::Failed,
        }
    }

    fn launch(&mut self) -> Instance {
        let mut step = start();
        let mut requests = Vec::new();
        loop {
            requests.push(step.action.clone());
            assert!(requests.len() <= 6);
            if matches!(step.action, Action::Run { .. } | Action::Exit { .. }) {
                return Instance { phase: step.phase, requests };
            }
            let event = self.serve(&step.action);
            step = advance(step.phase, event);
        }
    }

    /// One round of the loop through a shared mapping of the region.
    fn round(&mut self, instance: &mut Instance, nanos: u32) -> Step {
        let fd = match instance.phase {
            Phase::Running { fd } => fd,
            other => panic!("not running: {:?}", other),
        };
        let region = self.regions.get_mut(&fd).unwrap();
        let mut buffer = [0u8; 16];
        buffer.copy_from_slice(region);
        let step = tick(instance.phase, &mut buffer, nanos);
        region.copy_from_slice(&buffer);
        instance.phase = step.phase;
        step
    }

    fn buffer(&self, instance: &Instance) -> Vec<u8> {
        match instance.phase {
            Phase::Running { fd } => self.regions[&fd].clone(),
            other => panic!("not running: {:?}", other),
        }
    }
}

fn map_of(fd: i32) -> Action {
    Action::MapRegion { fd, len: 16, offset: 0, readable: true, writable: true, shared: true }
}

fn ready() -> Action {
    Action::ReportReady {
        unset_env: true,
        directives: vec![Directive::Ready, Directive::Status("Running notify test".to_string())],
    }
}

#[test]
fn first_launch_creates_and_registers() {
    let mut machine = Machine::new();
    let instance = machine.launch();
    assert_eq!(instance.phase, Phase::Running { fd: 3 });
    assert_eq!(
        instance.requests,
        vec![
            Action::ListStore { unset_env: false },
            Action::CreateRegion {
                tag: "rust_memfd_example".to_string(),
                close_on_exec: true,
                size: 16,
            },
            Action::Register {
                unset_env: false,
                directives: vec![Directive::KeepInStore, Directive::Name("memfd".to_string())],
                fds: vec![3],
            },
            map_of(3),
            ready(),
            Action::Run { warning: None },
        ]
    );
    assert_eq!(machine.store, vec![StoreEntry { fd: 3, name: "memfd".to_string() }]);
    assert_eq!(machine.buffer(&instance), vec![0u8; 16]);
}

#[test]
fn second_launch_recovers_what_the_first_registered() {
    let mut machine = Machine::new();
    let first = machine.launch();
    let second = machine.launch();
    assert_eq!(second.phase, first.phase);
    assert_eq!(
        second.requests,
        vec![
            Action::ListStore { unset_env: false },
            Action::MeasureRegion { fd: 3 },
            map_of(3),
            ready(),
            Action::Run { warning: None },
        ]
    );
    assert_eq!(machine.store.len(), 1);
    assert_eq!(machine.regions.len(), 1);
    assert_eq!(machine.regions[&3].len(), 16);
}

#[test]
fn region_survives_a_crash_after_one_mutation() {
    let mut machine = Machine::new();

    let mut first = machine.launch();
    assert_eq!(machine.buffer(&first), vec![0u8; 16]);
    let step = machine.round(&mut first, 3);
    assert_eq!(step.action, Action::Pause { millis: 20 });
    assert_eq!(machine.buffer(&first)[3], 1);
    // The first instance dies here, with no cleanup.

    let second = machine.launch();
    assert_eq!(second.phase, Phase::Running { fd: 3 });
    assert!(second.requests.contains(&Action::MeasureRegion { fd: 3 }));
    assert_eq!(
        machine.buffer(&second),
        vec![0, 0, 0, 1, 0, 0, 0, 0, 0, 0, 0, 0, 0, 0, 0, 0]
    );
}

#[test]
fn region_survives_an_injected_crash() {
    let mut machine = Machine::new();

    let mut first = machine.launch();
    assert_eq!(machine.round(&mut first, 3).phase, Phase::Running { fd: 3 });
    assert_eq!(machine.round(&mut first, 19).phase, Phase::Running { fd: 3 });
    let last = machine.round(&mut first, 250);
    assert_eq!(
        last,
        Step {
            phase: Phase::Crashed,
            action: Action::Exit { status: 1, diagnostic: "Simulating crash!".to_string() },
        }
    );

    let second = machine.launch();
    assert_eq!(
        machine.buffer(&second),
        vec![0, 0, 0, 2, 0, 0, 0, 0, 0, 0, 1, 0, 0, 0, 0, 0]
    );
}

#[test]
fn recovery_across_many_instances_loses_nothing() {
    let mut machine = Machine::new();
    let mut expected = vec![0u8; 16];
    let mut nanos: u32 = 1;
    for _ in 0..40 {
        let mut instance = machine.launch();
        assert_eq!(instance.phase, Phase::Running { fd: 3 });
        assert_eq!(machine.buffer(&instance), expected);
        loop {
            nanos = nanos.wrapping_mul(1_103_515_245).wrapping_add(12_345) % 1_000_000_000;
            let step = machine.round(&mut instance, nanos);
            let slot = (nanos % 16) as usize;
            expected[slot] = expected[slot].wrapping_add(1);
            assert_eq!(machine.regions[&3], expected);
            if nanos % 50 == 0 {
                assert_eq!(step.phase, Phase::Crashed);
                break;
            }
            assert_eq!(step, Step {
                phase: Phase::Running { fd: 3 },
                action: Action::Pause { millis: 20 },
            });
        }
    }
    assert_eq!(machine.store.len(), 1);
}

#[test]
fn recovered_region_of_the_wrong_size_is_never_mapped() {
    for size in [0usize, 8, 15, 17, 512] {
        let mut machine = Machine::new();
        machine.store.push(StoreEntry { fd: 7, name: "memfd".to_string() });
        machine.regions.insert(7, vec![0xAB; size]);
        let instance = machine.launch();
        assert_eq!(
            instance.phase,
            Phase::Failed {
                error: WorkerError::SizeMismatch { expected: 16, actual: size as u64 },
            }
        );
        assert_eq!(
            instance.requests,
            vec![
                Action::ListStore { unset_env: false },
                Action::MeasureRegion { fd: 7 },
                Action::Exit {
                    status: 1,
                    diagnostic: "memory region has the wrong size".to_string(),
                },
            ]
        );
        assert_eq!(machine.regions[&7], vec![0xAB; size]);
        assert_eq!(machine.store.len(), 1);
    }
}

#[test]
fn recovery_ignores_descriptors_under_other_names() {
    let mut machine = Machine::new();
    machine.store.push(StoreEntry { fd: 3, name: "listener".to_string() });
    machine.regions.insert(3, vec![1; 64]);
    machine.next_fd = 4;
    let first = machine.launch();
    assert_eq!(first.phase, Phase::Running { fd: 4 });
    assert_eq!(machine.store.len(), 2);
    let second = machine.launch();
    assert_eq!(second.phase, Phase::Running { fd: 4 });
    assert_eq!(machine.store.len(), 2);
    assert_eq!(machine.regions[&3], vec![1; 64]);
}

#[test]
fn recovery_takes_the_first_of_two_registrations() {
    let mut machine = Machine::new();
    machine.store.push(StoreEntry { fd: 5, name: "memfd".to_string() });
    machine.store.push(StoreEntry { fd: 6, name: "memfd".to_string() });
    machine.regions.insert(5, vec![5; 16]);
    machine.regions.insert(6, vec![6; 16]);
    let instance = machine.launch();
    assert_eq!(instance.phase, Phase::Running { fd: 5 });
    assert_eq!(machine.buffer(&instance), vec![5; 16]);
    assert_eq!(machine.store.len(), 2);
}
