use gpu::error::{GpuError, Violation};
use gpu::expression::parse;
use gpu::kernel::CompiledKernel;
use gpu::session::{Action, Event, Phase, Session};
use gpu::words::encode_words;

fn four_buffers() -> Vec<Vec<u32>> {
    vec![vec![0, 0, 0], vec![5, 4, 0], vec![1, 2, 0], vec![2, 5, 4]]
}

fn kernel_for(expression: &str) -> CompiledKernel {
    let source = parse(expression).unwrap();
    CompiledKernel::from_outcome(source.buffer_count, Ok(vec![0x0723_0203])).unwrap()
}

/// Drives a session as a device would that leaves `staged` in the output buffer.
fn run(buffers: Vec<Vec<u32>>, kernel: &CompiledKernel, staged: &Vec<u32>) -> Action {
    let mut session = Session::begin(buffers, kernel).unwrap();
    assert_eq!(session.step(Event::DeviceReady), Action::Submit);
    session.step(Event::ReadbackReady(encode_words(staged)))
}

#[test]
fn four_buffer_call_returns_what_the_device_staged() {
    let kernel = kernel_for("b0 += b1 * b2 + b3 + 4");
    assert_eq!(kernel.buffer_count, 4);
    let mut session = Session::begin(four_buffers(), &kernel).unwrap();
    assert_eq!(session.current_phase(), Phase::AwaitingDevice);
    assert_eq!(session.current_plan().invocations, 3);
    assert_eq!(session.current_plan().bindings.len(), 4);
    assert_eq!(session.step(Event::DeviceReady), Action::Submit);
    assert_eq!(session.current_phase(), Phase::AwaitingReadback);
    let staged = vec![11, 0, 0, 0, 17, 0, 0, 0, 8, 0, 0, 0];
    assert_eq!(session.step(Event::ReadbackReady(staged)), Action::Return(vec![11, 17, 8]));
    assert_eq!(session.current_phase(), Phase::Returned);
}

#[test]
fn add_constant_over_zeros() {
    let kernel = kernel_for("b0 += 4");
    for length in [1usize, 2, 3, 64, 1000] {
        let action = run(vec![vec![0; length]], &kernel, &vec![4; length]);
        assert_eq!(action, Action::Return(vec![4; length]));
    }
}

#[test]
fn untouched_output_comes_back_unchanged() {
    let kernel = kernel_for("b0 = b0");
    let buffers = vec![vec![3, 1, 4, 1, 5, 9, 2, 6]];
    let mut session = Session::begin(buffers.clone(), &kernel).unwrap();
    assert_eq!(session.step(Event::DeviceReady), Action::Submit);
    let uploaded = session.current_plan().bindings[0].contents.clone();
    assert_eq!(session.step(Event::ReadbackReady(uploaded)), Action::Return(buffers[0].clone()));
}

#[test]
fn a_second_call_starts_from_the_output_it_is_given() {
    let kernel = kernel_for("b0 += 4");
    let first = match run(vec![vec![0, 0, 0]], &kernel, &vec![4, 4, 4]) {
        Action::Return(words) => words,
        other => panic!("unexpected {:?}", other),
    };
    assert_eq!(first, vec![4, 4, 4]);
    let again = Session::begin(vec![first.clone()], &kernel).unwrap();
    assert_eq!(again.current_plan().bindings[0].contents, encode_words(&vec![4, 4, 4]));
    let second = match run(vec![first.clone()], &kernel, &vec![8, 8, 8]) {
        Action::Return(words) => words,
        other => panic!("unexpected {:?}", other),
    };
    assert_ne!(second, first);
}

#[test]
fn output_is_as_long_as_buffer_zero() {
    let kernel = CompiledKernel::new(Vec::new(), 2);
    for length in [1usize, 5, 17, 256] {
        let buffers = vec![vec![1; length], vec![2; length]];
        match run(buffers, &kernel, &vec![9; length]) {
            Action::Return(words) => assert_eq!(words.len(), length),
            other => panic!("unexpected {:?}", other),
        }
    }
}

#[test]
fn host_buffers_stay_as_they_were() {
    let kernel = CompiledKernel::new(Vec::new(), 4);
    let mut session = Session::begin(four_buffers(), &kernel).unwrap();
    assert_eq!(session.host_buffers(), &four_buffers());
    session.step(Event::DeviceReady);
    assert_eq!(session.host_buffers(), &four_buffers());
    session.step(Event::ReadbackReady(vec![11, 0, 0, 0, 17, 0, 0, 0, 8, 0, 0, 0]));
    assert_eq!(session.host_buffers(), &four_buffers());
    assert_eq!(session.into_buffers(), four_buffers());
}

#[test]
fn host_buffers_stay_as_they_were_when_the_call_fails() {
    let kernel = CompiledKernel::new(Vec::new(), 4);
    let mut session = Session::begin(four_buffers(), &kernel).unwrap();
    session.step(Event::DeviceReady);
    session.step(Event::ReadbackFailed);
    assert_eq!(session.into_buffers(), four_buffers());
}

#[test]
fn wrong_buffer_count_is_refused_before_any_device() {
    let kernel = kernel_for("b0 += b1 * b2 + b3 + 4");
    let error = Session::begin(vec![vec![0, 0, 0], vec![5, 4, 0]], &kernel).err().unwrap();
    assert_eq!(error, GpuError::Contract(Violation::BufferCount { expected: 4, supplied: 2 }));
    let kernel = kernel_for("b0 += 4");
    let error = Session::begin(four_buffers(), &kernel).err().unwrap();
    assert_eq!(error, GpuError::Contract(Violation::BufferCount { expected: 1, supplied: 4 }));
}

#[test]
fn uneven_buffers_are_refused_before_any_device() {
    let kernel = CompiledKernel::new(Vec::new(), 2);
    let error = Session::begin(vec![vec![0, 0, 0], vec![5, 4]], &kernel).err().unwrap();
    assert_eq!(error, GpuError::Contract(Violation::BufferLength { index: 1 }));
}

#[test]
fn no_device_fails_the_call() {
    let kernel = CompiledKernel::new(Vec::new(), 1);
    let mut session = Session::begin(vec![vec![1, 2]], &kernel).unwrap();
    assert_eq!(session.step(Event::DeviceUnavailable), Action::Fail(GpuError::DeviceUnavailable));
    assert_eq!(session.current_phase(), Phase::Failed);
}

#[test]
fn failed_mapping_fails_the_call() {
    let kernel = CompiledKernel::new(Vec::new(), 1);
    let mut session = Session::begin(vec![vec![1, 2]], &kernel).unwrap();
    session.step(Event::DeviceReady);
    assert_eq!(session.step(Event::ReadbackFailed), Action::Fail(GpuError::ReadbackFailed));
    assert_eq!(session.current_phase(), Phase::Failed);
}

#[test]
fn readback_of_the_wrong_size_fails_the_call() {
    let kernel = CompiledKernel::new(Vec::new(), 1);
    for staged in [vec![], vec![1, 0, 0, 0], vec![0; 7], vec![0; 9], vec![0; 12]] {
        let mut session = Session::begin(vec![vec![1, 2]], &kernel).unwrap();
        session.step(Event::DeviceReady);
        assert_eq!(
            session.step(Event::ReadbackReady(staged)),
            Action::Fail(GpuError::ReadbackFailed)
        );
        assert_eq!(session.current_phase(), Phase::Failed);
    }
}

#[test]
fn reports_out_of_turn_change_nothing() {
    let kernel = CompiledKernel::new(Vec::new(), 1);
    let mut session = Session::begin(vec![vec![1, 2]], &kernel).unwrap();
    assert_eq!(session.step(Event::ReadbackReady(vec![0; 8])), Action::Ignore);
    assert_eq!(session.step(Event::ReadbackFailed), Action::Ignore);
    assert_eq!(session.current_phase(), Phase::AwaitingDevice);
    assert_eq!(session.step(Event::DeviceReady), Action::Submit);
    assert_eq!(session.step(Event::DeviceReady), Action::Ignore);
    assert_eq!(session.step(Event::DeviceUnavailable), Action::Ignore);
    assert_eq!(session.current_phase(), Phase::AwaitingReadback);
}

#[test]
fn a_call_ends_once() {
    let kernel = CompiledKernel::new(Vec::new(), 1);
    let mut session = Session::begin(vec![vec![1, 2]], &kernel).unwrap();
    session.step(Event::DeviceReady);
    assert_eq!(session.step(Event::ReadbackReady(vec![7, 0, 0, 0, 9, 0, 0, 0])), Action::Return(vec![7, 9]));
    for event in [
        Event::DeviceReady,
        Event::DeviceUnavailable,
        Event::ReadbackReady(vec![1, 0, 0, 0, 1, 0, 0, 0]),
        Event::ReadbackFailed,
    ] {
        assert_eq!(session.step(event), Action::Ignore);
        assert_eq!(session.current_phase(), Phase::Returned);
    }
    let mut failed = Session::begin(vec![vec![1, 2]], &kernel).unwrap();
    failed.step(Event::DeviceUnavailable);
    for event in [Event::DeviceReady, Event::ReadbackReady(vec![0; 8]), Event::ReadbackFailed] {
        assert_eq!(failed.step(event), Action::Ignore);
        assert_eq!(failed.current_phase(), Phase::Failed);
    }
}

#[test]
fn the_same_reports_give_the_same_result() {
    let kernel = kernel_for("b0 += b1 * b2 + b3 + 4");
    let staged = vec![11, 17, 8];
    let one = run(four_buffers(), &kernel, &staged);
    let other = run(four_buffers(), &kernel, &staged);
    assert_eq!(one, other);
    assert_eq!(one, Action::Return(vec![11, 17, 8]));
}
