use cl_bench::encoding::{single_bits_of_index, EXACT_LIMIT, ONE_BITS, THREE_BITS, TWO_BITS};
use cl_bench::pipeline::{Action, Event, Pipeline, PipelineError, Stage};
use cl_bench::scenario::{GridShape, KernelArg, Scenario, MATRIX_MULTIPLY_SOURCE, VECTOR_ADD_SOURCE};
use cl_bench::timing::PhaseTimings;

/// A stand-in accelerator: it keeps the buffers on the host and runs the two
/// kernels in single precision.
struct FakeDevice {
    buffers: Vec<Vec<f32>>,
    entry: String,
    args: Vec<KernelArg>,
    clock: u64,
}

impl FakeDevice {
    fn new() -> FakeDevice {
        FakeDevice { buffers: Vec::new(), entry: String::new(), args: Vec::new(), clock: 100 }
    }

    fn tick(&mut self, d: u64) -> u64 {
        self.clock += d;
        self.clock
    }

    fn buffer_arg(&self, i: usize) -> &Vec<f32> {
        match self.args[i] {
            KernelArg::Buffer(s) => &self.buffers[s],
            KernelArg::Scalar(_) => panic!("not a buffer"),
        }
    }

    fn run_kernel(&mut self) {
        let a = self.buffer_arg(0).clone();
        let b = self.buffer_arg(1).clone();
        let out_slot = match self.args[2] {
            KernelArg::Buffer(s) => s,
            KernelArg::Scalar(_) => panic!("not a buffer"),
        };
        if self.entry == "add" {
            for i in 0..a.len() {
                self.buffers[out_slot][i] = a[i] + b[i];
            }
        } else {
            let n = match self.args[3] {
                KernelArg::Scalar(n) => n as usize,
                KernelArg::Buffer(_) => panic!("not a scalar"),
            };
            for row in 0..n {
                for col in 0..n {
                    let mut sum = 0.0f32;
                    for k in 0..n {
                        sum += a[row * n + k] * b[k * n + col];
                    }
                    self.buffers[out_slot][row * n + col] = sum;
                }
            }
        }
    }

    /// Performs `a` and reports its outcome; `None` once the run is over.
    fn perform(&mut self, a: &Action) -> Option<Event> {
        match a {
            Action::Initialize { .. } => Some(Event::Completed { at: self.tick(10) }),
            Action::Allocate { count, buffers } => {
                self.buffers = vec![vec![0.0f32; *count]; *buffers];
                Some(Event::Completed { at: self.tick(1) })
            },
            Action::Write { slot, data } => {
                self.buffers[*slot] = data.iter().map(|b| f32::from_bits(*b)).collect();
                Some(Event::Completed { at: self.tick(2) })
            },
            Action::Bind { entry_point, args } => {
                self.entry = entry_point.clone();
                self.args = args.clone();
                Some(Event::Completed { at: self.tick(3) })
            },
            Action::Execute => {
                self.run_kernel();
                Some(Event::Completed { at: self.tick(4) })
            },
            Action::Read { slot, count } => {
                let data: Vec<u32> = self.buffers[*slot][..*count].iter().map(|v| v.to_bits()).collect();
                Some(Event::OutputRead { at: self.tick(5), data })
            },
            Action::CheckTolerance { output } => {
                let ok = matrix_within_tolerance(&self.buffers[0], &self.buffers[1], output);
                Some(Event::Checked { at: self.tick(6), within_tolerance: ok })
            },
            Action::Report(_) | Action::Abort(_) => None,
        }
    }
}

fn matrix_within_tolerance(a: &[f32], b: &[f32], output: &[u32]) -> bool {
    let n = (a.len() as f64).sqrt() as usize;
    for row in 0..n {
        for col in 0..n {
            let mut sum = 0.0f32;
            for k in 0..n {
                sum += a[row * n + k] * b[k * n + col];
            }
            if (f32::from_bits(output[row * n + col]) - sum).abs() >= 1e-3 {
                return false;
            }
        }
    }
    true
}

/// Runs `scenario` over `grid` on the stand-in device; returns the final state,
/// the last action and the output read back, if any.
fn run_on_fake(scenario: Scenario, grid: GridShape) -> (Pipeline, Action, Vec<f32>) {
    let mut dev = FakeDevice::new();
    let (mut p, mut a) = Pipeline::start(scenario, grid, dev.clock);
    let mut output: Vec<f32> = Vec::new();
    while let Some(e) = dev.perform(&a) {
        if let Event::OutputRead { data, .. } = &e {
            output = data.iter().map(|b| f32::from_bits(*b)).collect();
        }
        a = p.advance(e);
    }
    (p, a, output)
}

fn events_until(p: &mut Pipeline, n: usize, at: u64) {
    for i in 0..n {
        p.advance(Event::Completed { at: at + i as u64 });
    }
}

#[test]
fn bit_patterns_of_constants() {
    assert_eq!(ONE_BITS, 1.0f32.to_bits());
    assert_eq!(TWO_BITS, 2.0f32.to_bits());
    assert_eq!(THREE_BITS, 3.0f32.to_bits());
}

#[test]
fn single_bits_match_float_conversion() {
    for i in 0u32..5000 {
        assert_eq!(single_bits_of_index(i), (i as f32).to_bits());
    }
    for i in [8_388_607u32, 8_388_608, 8_388_609, 12_345_678, EXACT_LIMIT - 1] {
        assert_eq!(single_bits_of_index(i), (i as f32).to_bits());
    }
    assert_eq!(single_bits_of_index(0), 0);
    assert_eq!(single_bits_of_index(1), 0x3F80_0000);
    assert_eq!(single_bits_of_index(1023), 0x447F_C000);
}

#[test]
fn grid_covers_exactly() {
    assert!(GridShape::OneDim(1024).covers_exactly(1024));
    assert!(!GridShape::OneDim(1000).covers_exactly(1024));
    assert!(GridShape::TwoDim(32, 32).covers_exactly(1024));
    assert!(GridShape::TwoDim(16, 64).covers_exactly(1024));
    assert!(!GridShape::TwoDim(32, 16).covers_exactly(1024));
    assert!(!GridShape::TwoDim(usize::MAX, 2).covers_exactly(1024));
    assert!(!GridShape::TwoDim(0, 5).covers_exactly(1));
    assert!(GridShape::TwoDim(0, 5).covers_exactly(0));
}

#[test]
fn scenario_definitions() {
    let v = Scenario::VectorAdd { len: 1024 };
    assert_eq!(v.element_count(), 1024);
    assert_eq!(v.entry_point(), "add");
    assert_eq!(v.kernel_source(), VECTOR_ADD_SOURCE);
    assert_eq!(v.grid_shape(), GridShape::OneDim(1024));
    assert_eq!(v.arguments(), vec![KernelArg::Buffer(0), KernelArg::Buffer(1), KernelArg::Buffer(2)]);
    assert!(v.input(0).iter().all(|b| f32::from_bits(*b) == 1.0));
    assert!(v.input(1).iter().all(|b| f32::from_bits(*b) == 2.0));
    assert_eq!(v.input(0).len(), 1024);

    let m = Scenario::MatrixMultiply { n: 32 };
    assert_eq!(m.element_count(), 1024);
    assert_eq!(m.entry_point(), "matmul");
    assert_eq!(m.kernel_source(), MATRIX_MULTIPLY_SOURCE);
    assert_eq!(m.grid_shape(), GridShape::TwoDim(32, 32));
    assert_eq!(m.arguments()[3], KernelArg::Scalar(32));
    let a = m.input(0);
    assert_eq!(a.len(), 1024);
    for (i, b) in a.iter().enumerate() {
        assert_eq!(f32::from_bits(*b), i as f32);
    }
    assert_eq!(m.input(1), a);
}

#[test]
fn sums_exact_checks_every_element() {
    let v = Scenario::VectorAdd { len: 3 };
    assert!(v.sums_exact(&vec![THREE_BITS; 3]));
    assert!(!v.sums_exact(&vec![THREE_BITS; 2]));
    assert!(!v.sums_exact(&vec![THREE_BITS, TWO_BITS, THREE_BITS]));
    assert!(!Scenario::MatrixMultiply { n: usize::MAX }.sums_exact(&vec![THREE_BITS; 3]));
}

#[test]
fn vector_add_all_threes_1024() {
    let (p, a, out) = run_on_fake(Scenario::VectorAdd { len: 1024 }, GridShape::OneDim(1024));
    assert_eq!(p.stage, Stage::Finished);
    assert!(matches!(a, Action::Report(_)));
    assert_eq!(out.len(), 1024);
    assert!(out.iter().all(|c| *c == 3.0f32));
}

#[test]
fn vector_add_all_threes_single_element() {
    let (p, a, out) = run_on_fake(Scenario::VectorAdd { len: 1 }, GridShape::OneDim(1));
    assert_eq!(p.stage, Stage::Finished);
    assert!(matches!(a, Action::Report(_)));
    assert_eq!(out, vec![3.0f32]);
}

#[test]
fn matrix_multiply_32_within_tolerance() {
    let (p, a, out) = run_on_fake(Scenario::MatrixMultiply { n: 32 }, GridShape::TwoDim(32, 32));
    assert_eq!(p.stage, Stage::Finished);
    assert!(matches!(a, Action::Report(_)));
    let n = 32usize;
    for row in 0..n {
        for col in 0..n {
            let mut sum = 0.0f32;
            for k in 0..n {
                sum += ((row * n + k) as f32) * ((k * n + col) as f32);
            }
            assert!((out[row * n + col] - sum).abs() < 1e-3);
        }
    }
}

#[test]
fn same_inputs_same_outcome() {
    for s in [Scenario::VectorAdd { len: 64 }, Scenario::MatrixMultiply { n: 8 }] {
        let (p1, _, out1) = run_on_fake(s, s.grid_shape());
        let (p2, _, out2) = run_on_fake(s, s.grid_shape());
        assert_eq!(p1.stage, p2.stage);
        assert_eq!(p1.timings, p2.timings);
        assert_eq!(out1, out2);
    }
}

#[test]
fn mismatched_grid_is_a_binding_failure() {
    let (p, a, out) = run_on_fake(Scenario::VectorAdd { len: 1024 }, GridShape::OneDim(1000));
    assert_eq!(p.stage, Stage::Aborted(PipelineError::BindingFailure));
    assert!(matches!(a, Action::Abort(PipelineError::BindingFailure)));
    assert!(out.is_empty());
    let (p, _, _) = run_on_fake(Scenario::MatrixMultiply { n: 32 }, GridShape::TwoDim(32, 16));
    assert_eq!(p.stage, Stage::Aborted(PipelineError::BindingFailure));
}

#[test]
fn timings_of_a_successful_run() {
    let (p, a, _) = run_on_fake(Scenario::VectorAdd { len: 4 }, GridShape::OneDim(4));
    let t = match a {
        Action::Report(t) => t,
        _ => panic!("run did not finish"),
    };
    assert_eq!(t, p.timings);
    assert_eq!(t.setup, 10);
    assert_eq!(t.write, 4);
    assert_eq!(t.kernel_build, 3);
    assert_eq!(t.execute, 4);
    assert_eq!(t.read, 5);
    assert_eq!(t.total, 27);
    assert!(t.total >= t.sum_of_phases());
    assert_eq!(t.sum_of_phases(), 26);
}

#[test]
fn timings_of_matrix_run_include_check() {
    let (_, a, _) = run_on_fake(Scenario::MatrixMultiply { n: 4 }, GridShape::TwoDim(4, 4));
    match a {
        Action::Report(t) => {
            assert_eq!(t.read, 5);
            assert_eq!(t.total, 33);
            assert!(t.total >= t.sum_of_phases());
        },
        _ => panic!("run did not finish"),
    }
}

#[test]
fn clock_going_backwards_is_raised() {
    let (mut p, _) = Pipeline::start(Scenario::VectorAdd { len: 1 }, GridShape::OneDim(1), 50);
    p.advance(Event::Completed { at: 40 });
    assert_eq!(p.timings.setup, 0);
    assert_eq!(p.last, 50);
    p.advance(Event::Completed { at: 60 });
    assert_eq!(p.last, 60);
}

#[test]
fn sum_of_phases_saturates() {
    let t = PhaseTimings { setup: u64::MAX, write: 1, kernel_build: 0, execute: 0, read: 0, total: 0 };
    assert_eq!(t.sum_of_phases(), u64::MAX);
    assert_eq!(PhaseTimings::zero().sum_of_phases(), 0);
}

#[test]
fn start_builds_the_program() {
    let s = Scenario::MatrixMultiply { n: 32 };
    let (p, a) = Pipeline::start(s, GridShape::TwoDim(32, 32), 7);
    assert_eq!(p.stage, Stage::Initialize);
    assert_eq!(p.origin, 7);
    match a {
        Action::Initialize { source, entry_point, grid } => {
            assert_eq!(source, MATRIX_MULTIPLY_SOURCE);
            assert_eq!(entry_point, "matmul");
            assert_eq!(grid, GridShape::TwoDim(32, 32));
        },
        _ => panic!("wrong first action"),
    }
}

#[test]
fn each_failed_step_gives_its_error() {
    let expected = [
        PipelineError::SetupFailure,
        PipelineError::AllocationFailure,
        PipelineError::TransferFailure,
        PipelineError::TransferFailure,
        PipelineError::BindingFailure,
        PipelineError::ExecutionFailure,
        PipelineError::TransferFailure,
    ];
    for (k, err) in expected.iter().enumerate() {
        let (mut p, _) = Pipeline::start(Scenario::VectorAdd { len: 2 }, GridShape::OneDim(2), 0);
        events_until(&mut p, k, 1);
        let a = p.advance(Event::Failed { at: 100 });
        assert_eq!(p.stage, Stage::Aborted(*err));
        assert!(matches!(a, Action::Abort(e) if e == *err));
    }
}

#[test]
fn matrix_check_failure_is_verification_failure() {
    let (mut p, _) = Pipeline::start(Scenario::MatrixMultiply { n: 1 }, GridShape::TwoDim(1, 1), 0);
    events_until(&mut p, 6, 1);
    let a = p.advance(Event::OutputRead { at: 10, data: vec![0] });
    assert!(matches!(a, Action::CheckTolerance { ref output } if *output == vec![0u32]));
    let a = p.advance(Event::Checked { at: 11, within_tolerance: false });
    assert!(matches!(a, Action::Abort(PipelineError::VerificationFailure)));
    assert!(PipelineError::VerificationFailure.is_wrong_result());
    assert!(!PipelineError::ExecutionFailure.is_wrong_result());
}

#[test]
fn wrong_vector_output_is_verification_failure() {
    let (mut p, _) = Pipeline::start(Scenario::VectorAdd { len: 2 }, GridShape::OneDim(2), 0);
    events_until(&mut p, 6, 1);
    let a = p.advance(Event::OutputRead { at: 10, data: vec![THREE_BITS, TWO_BITS] });
    assert!(matches!(a, Action::Abort(PipelineError::VerificationFailure)));
}

#[test]
fn short_output_is_transfer_failure() {
    let (mut p, _) = Pipeline::start(Scenario::VectorAdd { len: 2 }, GridShape::OneDim(2), 0);
    events_until(&mut p, 6, 1);
    let a = p.advance(Event::OutputRead { at: 10, data: vec![THREE_BITS] });
    assert!(matches!(a, Action::Abort(PipelineError::TransferFailure)));
}

#[test]
fn finished_run_ignores_further_events() {
    let (mut p, _, _) = run_on_fake(Scenario::VectorAdd { len: 2 }, GridShape::OneDim(2));
    let before = p.timings;
    let a = p.advance(Event::Failed { at: 1000 });
    assert_eq!(p.stage, Stage::Finished);
    assert_eq!(p.timings, before);
    assert!(matches!(a, Action::Report(t) if t == before));
}
