use signaler::{
    emit_outcome, BroadcastEvent, EmitError, LoopState, Signal, SignalError, SignalNoClone, TaskMaster,
    SIGNAL_CAPACITY,
};
use std::sync::{Arc, Mutex};
use std::time::Duration;
use tokio::runtime::Runtime;
use tokio::sync::mpsc;

#[derive(Clone, Debug, PartialEq)]
struct Potato {
    pub number: i64,
}

#[derive(Debug, PartialEq)]
struct Atom {
    pub number: i64,
}

fn connect<T: Clone + Send + 'static>(
    master: &mut TaskMaster,
    signal: &Signal<T>,
    slot: impl Fn(T) + Send + 'static,
) {
    let sub = signal.subscribe();
    let mut receiver = sub.receiver;
    master.spawn(sub.name, async move {
        let mut state = LoopState::new();
        state.start();
        while state.is_running() {
            let event = BroadcastEvent::from_read(receiver.recv().await);
            if let Some(v) = state.on_broadcast(event) {
                slot(v);
            }
        }
    });
}

fn connect_exclusive<T: Send + 'static>(
    master: &mut TaskMaster,
    signal: &mut SignalNoClone<T>,
    slot: impl Fn(T) + Send + 'static,
) -> Result<(), SignalError> {
    let sub = signal.subscribe()?;
    let mut receiver = sub.receiver;
    master.spawn(sub.name, async move {
        let mut state = LoopState::new();
        state.start();
        while state.is_running() {
            let read = receiver.recv().await;
            if let Some(v) = state.on_exclusive(read) {
                slot(v);
            }
        }
    });
    Ok(())
}

fn emit_exclusive<T: Send + 'static>(runtime: &Runtime, sender: &mpsc::Sender<T>, value: T) -> Result<(), EmitError<T>> {
    runtime.block_on(async { emit_outcome(sender.send(value).await) })
}

fn wait_until(runtime: &Runtime, done: impl Fn() -> bool) {
    runtime.block_on(async {
        for _ in 0..500 {
            if done() {
                break;
            }
            tokio::time::sleep(Duration::from_millis(5)).await;
        }
    });
}

fn contains_all<T: PartialEq>(captured: &Arc<Mutex<Vec<T>>>, values: &[T]) -> bool {
    let got = captured.lock().unwrap();
    values.iter().all(|v| got.contains(v))
}

#[test]
fn simple_test_simple_signal_behavior() {
    let runtime = Runtime::new().unwrap();
    let mut master = TaskMaster::new(2).unwrap();
    let basic_signal = Signal::new();
    let basic_values = vec![10, 20, 30];
    let a = Arc::new(Mutex::new(Vec::new()));
    let b = Arc::new(Mutex::new(Vec::new()));
    let (a2, b2) = (a.clone(), b.clone());
    connect(&mut master, &basic_signal, move |msg| a2.lock().unwrap().push(msg));
    connect(&mut master, &basic_signal, move |msg| b2.lock().unwrap().push(msg));

    assert!(!contains_all(&a, &basic_values));
    assert!(!contains_all(&b, &basic_values));
    for value in basic_values.clone() {
        basic_signal.emit(value);
    }
    wait_until(&runtime, || a.lock().unwrap().len() == 3 && b.lock().unwrap().len() == 3);
    assert!(contains_all(&a, &basic_values));
    assert!(contains_all(&b, &basic_values));
}

#[test]
fn simple_test_complex_signal_behavior() {
    let runtime = Runtime::new().unwrap();
    let mut master = TaskMaster::new(2).unwrap();
    let complex_signal: Signal<Potato> = Signal::new();
    let mut no_clone_signal: SignalNoClone<Atom> = SignalNoClone::new();
    let complex_value = Potato { number: 42 };
    let captured_complex = Arc::new(Mutex::new(Vec::new()));
    let captured_no_clone = Arc::new(Mutex::new(Vec::new()));

    let a = captured_complex.clone();
    connect(&mut master, &complex_signal, move |msg| a.lock().unwrap().push(msg));
    let a = captured_no_clone.clone();
    connect_exclusive(&mut master, &mut no_clone_signal, move |msg| a.lock().unwrap().push(msg)).unwrap();

    assert!(!contains_all(&captured_complex, &[complex_value.clone()]));
    assert!(captured_no_clone.lock().unwrap().is_empty());

    complex_signal.emit(complex_value.clone());
    emit_exclusive(&runtime, &no_clone_signal.sender(), Atom { number: 69 }).unwrap();
    wait_until(&runtime, || {
        captured_complex.lock().unwrap().len() == 1 && captured_no_clone.lock().unwrap().len() == 1
    });

    assert!(contains_all(&captured_complex, &[complex_value]));
    assert_eq!(captured_no_clone.lock().unwrap()[0], Atom { number: 69 });
}

#[test]
fn broadcast_two_subscribers_see_both_values_in_order() {
    let runtime = Runtime::new().unwrap();
    let mut master = TaskMaster::new(2).unwrap();
    let signal: Signal<i32> = Signal::new();
    let a = Arc::new(Mutex::new(Vec::new()));
    let b = Arc::new(Mutex::new(Vec::new()));
    let (a2, b2) = (a.clone(), b.clone());
    connect(&mut master, &signal, move |v| a2.lock().unwrap().push(v));
    connect(&mut master, &signal, move |v| b2.lock().unwrap().push(v));
    signal.emit(10);
    signal.emit(20);
    wait_until(&runtime, || a.lock().unwrap().len() == 2 && b.lock().unwrap().len() == 2);
    assert_eq!(*a.lock().unwrap(), vec![10, 20]);
    assert_eq!(*b.lock().unwrap(), vec![10, 20]);
}

#[test]
fn broadcast_many_subscribers_see_every_value_in_order() {
    let runtime = Runtime::new().unwrap();
    let mut master = TaskMaster::new(2).unwrap();
    let signal: Signal<u32> = Signal::new();
    let captured: Vec<Arc<Mutex<Vec<u32>>>> = (0..4).map(|_| Arc::new(Mutex::new(Vec::new()))).collect();
    for c in &captured {
        let c2 = c.clone();
        connect(&mut master, &signal, move |v| c2.lock().unwrap().push(v));
    }
    let values: Vec<u32> = (0..50).collect();
    for v in &values {
        signal.emit(*v);
    }
    wait_until(&runtime, || captured.iter().all(|c| c.lock().unwrap().len() == 50));
    for c in &captured {
        assert_eq!(*c.lock().unwrap(), values);
    }
}

#[test]
fn broadcast_lagging_subscriber_sees_ordered_values_without_repeats() {
    let runtime = Runtime::new().unwrap();
    let signal: Signal<u32> = Signal::new();
    let mut receiver = signal.subscribe().receiver;
    for v in 0..300u32 {
        signal.emit(v);
    }
    drop(signal);
    let delivered = runtime.block_on(async move {
        let mut state = LoopState::new();
        state.start();
        let mut out = Vec::new();
        let mut lagged = false;
        while state.is_running() {
            let event = BroadcastEvent::from_read(receiver.recv().await);
            if let BroadcastEvent::Lagged(_) = event {
                lagged = true;
            }
            if let Some(v) = state.on_broadcast(event) {
                out.push(v);
            }
        }
        assert!(lagged);
        out
    });
    assert!(!delivered.is_empty());
    assert!(delivered.len() < 300);
    assert!(delivered.windows(2).all(|w| w[0] < w[1]));
    assert_eq!(*delivered.last().unwrap(), 299);
}

#[test]
fn broadcast_emit_without_subscribers_returns_the_value() {
    let signal: Signal<i64> = Signal::new();
    match signal.emit_result(7) {
        Err(e) => assert_eq!(e.0, 7),
        Ok(_) => panic!("no subscriber to take the value"),
    }
    signal.emit(8);
}

#[test]
fn broadcast_emit_counts_subscribers() {
    let signal: Signal<i64> = Signal::new();
    let _one = signal.subscribe();
    let _two = signal.subscribe_named("second".to_string());
    assert_eq!(signal.emit_result(1).unwrap(), 2);
}

#[test]
fn broadcast_capacity_is_fixed() {
    let signal: Signal<u8> = Signal::new();
    assert_eq!(signal.capacity_of(), 100);
    assert_eq!(SIGNAL_CAPACITY, 100);
}

#[test]
fn broadcast_subscription_names() {
    let signal: Signal<u8> = Signal::new();
    let named = signal.subscribe_named("watcher".to_string());
    assert_eq!(named.name, "watcher");
    let first = signal.subscribe();
    let second = signal.subscribe();
    assert_eq!(first.name.len(), 36);
    assert_ne!(first.name, second.name);
}

#[test]
fn exclusive_single_record_is_moved_to_the_subscriber() {
    let runtime = Runtime::new().unwrap();
    let mut master = TaskMaster::new(2).unwrap();
    let mut signal: SignalNoClone<Atom> = SignalNoClone::new();
    let captured = Arc::new(Mutex::new(Vec::new()));
    let c = captured.clone();
    connect_exclusive(&mut master, &mut signal, move |v| c.lock().unwrap().push(v)).unwrap();
    emit_exclusive(&runtime, &signal.sender(), Atom { number: 69 }).unwrap();
    wait_until(&runtime, || captured.lock().unwrap().len() == 1);
    runtime.block_on(async { tokio::time::sleep(Duration::from_millis(20)).await });
    assert_eq!(*captured.lock().unwrap(), vec![Atom { number: 69 }]);
}

#[test]
fn exclusive_delivers_every_value_in_order() {
    let runtime = Runtime::new().unwrap();
    let mut master = TaskMaster::new(2).unwrap();
    let mut signal: SignalNoClone<u32> = SignalNoClone::new();
    let captured = Arc::new(Mutex::new(Vec::new()));
    let c = captured.clone();
    connect_exclusive(&mut master, &mut signal, move |v| c.lock().unwrap().push(v)).unwrap();
    let sender = signal.sender();
    for v in 0..250u32 {
        emit_exclusive(&runtime, &sender, v).unwrap();
    }
    wait_until(&runtime, || captured.lock().unwrap().len() == 250);
    assert_eq!(*captured.lock().unwrap(), (0..250).collect::<Vec<u32>>());
}

#[test]
fn exclusive_second_subscribe_is_refused() {
    let mut signal: SignalNoClone<u8> = SignalNoClone::new();
    assert!(!signal.has_subscriber());
    let first = signal.subscribe_named("first".to_string()).unwrap();
    assert_eq!(first.name, "first");
    assert!(signal.has_subscriber());
    assert_eq!(signal.subscribe().err(), Some(SignalError::AlreadySubscribed));
    assert!(signal.has_subscriber());
    let mut receiver = first.receiver;
    signal.sender().try_send(5).unwrap();
    assert_eq!(receiver.try_recv().unwrap(), 5);
}

#[test]
fn exclusive_emit_after_receiver_dropped_is_closed() {
    let runtime = Runtime::new().unwrap();
    let mut signal: SignalNoClone<u8> = SignalNoClone::new();
    let sub = signal.subscribe().unwrap();
    drop(sub);
    match emit_exclusive(&runtime, &signal.sender(), 1) {
        Err(EmitError::Closed(v)) => assert_eq!(v, 1),
        Ok(()) => panic!("the receiving side is gone"),
    }
}

#[test]
fn exclusive_chain_reaches_the_tail_once() {
    let runtime = Runtime::new().unwrap();
    let mut master = TaskMaster::new(2).unwrap();
    let links = 40;
    let mut signals: Vec<SignalNoClone<u64>> = (0..links).map(|_| SignalNoClone::new()).collect();
    for i in 0..links - 1 {
        let next = signals[i + 1].sender();
        connect_exclusive(&mut master, &mut signals[i], move |v| {
            next.try_send(v).unwrap();
        })
        .unwrap();
    }
    let observed = Arc::new(Mutex::new(Vec::new()));
    let o = observed.clone();
    connect_exclusive(&mut master, &mut signals[links - 1], move |v| o.lock().unwrap().push(v)).unwrap();
    emit_exclusive(&runtime, &signals[0].sender(), 11).unwrap();
    wait_until(&runtime, || observed.lock().unwrap().len() == 1);
    runtime.block_on(async { tokio::time::sleep(Duration::from_millis(20)).await });
    assert_eq!(*observed.lock().unwrap(), vec![11]);
}

#[test]
fn exclusive_refused_value_comes_back_whole() {
    let runtime = Runtime::new().unwrap();
    let mut signal: SignalNoClone<Atom> = SignalNoClone::new();
    let named = signal.subscribe().unwrap();
    assert_eq!(named.name.len(), 36);
    drop(named);
    match emit_exclusive(&runtime, &signal.sender(), Atom { number: 69 }) {
        Err(EmitError::Closed(atom)) => assert_eq!(atom, Atom { number: 69 }),
        Ok(()) => panic!("the receiving side is gone"),
    }
}

#[test]
fn exclusive_capacity_is_fixed() {
    let signal: SignalNoClone<u8> = SignalNoClone::new();
    assert_eq!(signal.capacity_of(), 100);
}
