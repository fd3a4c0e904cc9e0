use async_stream::pair;
use async_stream::Driver;
use async_stream::Registry;
use async_stream::SendFuture;
use async_stream::SendPoll;
use async_stream::Sender;
use async_stream::StepOutcome;

/// The first stage: a generator sending two borrowed strings.
struct Inner {
    sender: Sender<&'static str>,
    values: Vec<&'static str>,
    next: usize,
    pending: Option<SendFuture<&'static str>>,
}

impl Inner {
    fn resume(&mut self, registry: &mut Registry<&'static str>) -> bool {
        loop {
            if let Some(op) = self.pending.as_mut() {
                match op.poll(registry) {
                    SendPoll::Ready => self.pending = None,
                    SendPoll::Pending => return false,
                    SendPoll::MisuseFatal => {
                        panic!("pair id mismatched! Sender can not be moved to another stream")
                    }
                }
            } else if self.next < self.values.len() {
                let value = self.values[self.next];
                self.next += 1;
                self.pending = Some(self.sender.send(value));
            } else {
                return true;
            }
        }
    }
}

/// The second stage: a generator draining the first stage — which holds
/// values of another type, so it rendezvouses through a registry of its
/// own — and forwarding each value, decorated, through its own sender.
struct Outer {
    sender: Sender<String>,
    inner_registry: Registry<&'static str>,
    inner_driver: Driver<&'static str>,
    inner_generator: Inner,
    pending: Option<SendFuture<String>>,
    drained: bool,
}

impl Outer {
    fn resume(&mut self, registry: &mut Registry<String>) -> bool {
        loop {
            if let Some(op) = self.pending.as_mut() {
                match op.poll(registry) {
                    SendPoll::Ready => self.pending = None,
                    SendPoll::Pending => return false,
                    SendPoll::MisuseFatal => {
                        panic!("pair id mismatched! Sender can not be moved to another stream")
                    }
                }
            } else if self.drained {
                return true;
            } else {
                let pulled = {
                    let driver = &mut self.inner_driver;
                    let registry = &mut self.inner_registry;
                    let generator = &mut self.inner_generator;
                    if !driver.begin_pull(registry) {
                        None
                    } else {
                        let mut settled = None;
                        loop {
                            let finished = generator.resume(registry);
                            match driver.resolve_resume(registry, finished) {
                                StepOutcome::Yielded(value) => {
                                    settled = Some(value);
                                    break;
                                }
                                StepOutcome::Finished => break,
                                StepOutcome::Pending => continue,
                            }
                        }
                        settled
                    }
                };
                match pulled {
                    Some(x) => self.pending = Some(self.sender.send(x.to_owned() + "!")),
                    None => self.drained = true,
                }
            }
        }
    }
}

#[test]
fn test() {
    let mut inner_registry: Registry<&'static str> = Registry::new();
    let (inner_tx, inner_rx) = pair(&mut inner_registry);
    let inner_generator = Inner {
        sender: inner_tx,
        values: vec!["hello", "world"],
        next: 0,
        pending: None,
    };

    let mut registry: Registry<String> = Registry::new();
    let (tx, rx) = pair(&mut registry);
    let mut driver = Driver::new(rx);
    let mut generator = Outer {
        sender: tx,
        inner_registry,
        inner_driver: Driver::new(inner_rx),
        inner_generator,
        pending: None,
        drained: false,
    };

    let mut values = Vec::new();
    loop {
        if !driver.begin_pull(&mut registry) {
            break;
        }
        let finished = generator.resume(&mut registry);
        match driver.resolve_resume(&mut registry, finished) {
            StepOutcome::Yielded(value) => values.push(value),
            StepOutcome::Finished => break,
            StepOutcome::Pending => continue,
        }
    }

    assert_eq!(2, values.len());
    assert_eq!("hello!", values[0]);
    assert_eq!("world!", values[1]);
}
