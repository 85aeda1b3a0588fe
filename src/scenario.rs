//! The two benchmark scenarios: kernel text, entry point, grid shape, argument
//! list, input arrays, and the expected values of vector addition.

use crate::encoding::{single_bits, single_bits_of_index, EXACT_LIMIT, ONE_BITS, THREE_BITS, TWO_BITS};
use vstd::prelude::*;

verus! {

/// OpenCL C text of the element-wise addition kernel.
pub const VECTOR_ADD_SOURCE: &'static str = r#"
    __kernel void add(
        __global const float* a,
        __global const float* b,
        __global float* c
    ) {
        int i = get_global_id(0);
        c[i] = a[i] + b[i];
    }
"#;

/// OpenCL C text of the dense matrix multiplication kernel.
pub const MATRIX_MULTIPLY_SOURCE: &'static str = r#"
    __kernel void matmul(
        __global const float *a,
        __global const float *b,
        __global float *c,
        const int N
    ) {
        int row = get_global_id(0);
        int col = get_global_id(1);
        float sum = 0.0f;
        for (int k = 0; k < N; ++k) {
            sum += a[row * N + k] * b[k * N + col];
        }
        c[row * N + col] = sum;
    }
"#;

/// Number of device buffers of every scenario: two inputs and one output.
pub const BUFFER_COUNT: usize = 3;

/// Slot of the output buffer.
pub const OUTPUT_SLOT: usize = 2;

/// The extent of the parallel indices of one kernel dispatch.
#[derive(Clone, Copy, Debug, PartialEq, Eq, Structural)]
pub enum GridShape {
    OneDim(usize),
    TwoDim(usize, usize),
}

impl GridShape {
    /// Total number of indices that the dispatch runs.
    pub open spec fn index_count(self) -> nat {
        match self {
            GridShape::OneDim(x) => x as nat,
            GridShape::TwoDim(x, y) => (x * y) as nat,
        }
    }

    /// Whether the grid runs exactly `count` indices.
    pub fn covers_exactly(&self, count: usize) -> (r: bool)
        ensures
            r == (self.index_count() == count as nat),
    {
        match *self {
            GridShape::OneDim(x) => x == count,
            GridShape::TwoDim(x, y) => {
                if x == 0 || y == 0 {
                    assert(x * y == 0) by (nonlinear_arith) requires x == 0 || y == 0;
                    count == 0
                } else if x > count || y > count {
                    proof {
                        assert(x * y >= x) by (nonlinear_arith) requires y >= 1;
                        assert(x * y >= y) by (nonlinear_arith) requires x >= 1;
                    }
                    false
                } else {
                    let xx = x as u128;
                    let yy = y as u128;
                    proof {
                        assert(xx * yy <= (count as u128) * (count as u128)) by (nonlinear_arith)
                            requires xx <= count, yy <= count;
                        assert((count as u128) * (count as u128) <= 0xffff_ffff_ffff_ffffu128 * 0xffff_ffff_ffff_ffffu128) by (nonlinear_arith);
                    }
                    xx * yy == count as u128
                }
            },
        }
    }
}

/// One argument of a kernel invocation, in declaration order.
#[derive(Clone, Copy, Debug, PartialEq, Eq, Structural)]
pub enum KernelArg {
    /// The device buffer at this slot.
    Buffer(usize),
    /// A 32-bit integer passed by value.
    Scalar(i32),
}

/// A benchmark definition that the pipeline runs.
#[derive(Clone, Copy, Debug, PartialEq, Eq, Structural)]
pub enum Scenario {
    /// `c[i] = a[i] + b[i]` over `len` elements, with `a` all ones and `b` all twos.
    VectorAdd { len: usize },
    /// `c = a * b` for `n` by `n` row-major matrices with `a[i] = b[i] = i`.
    MatrixMultiply { n: usize },
}

impl Scenario {
    /// Sizes are positive; every matrix input `a[i] = i` is exact in single
    /// precision, which bounds the element count by 2^24.
    pub open spec fn wf(self) -> bool {
        match self {
            Scenario::VectorAdd { len } => len >= 1,
            Scenario::MatrixMultiply { n } => n >= 1 && n * n <= EXACT_LIMIT,
        }
    }

    /// Element count of every buffer of the scenario.
    pub open spec fn spec_element_count(self) -> nat {
        match self {
            Scenario::VectorAdd { len } => len as nat,
            Scenario::MatrixMultiply { n } => (n * n) as nat,
        }
    }

    /// Name of the kernel's entry point.
    pub open spec fn spec_entry_point(self) -> Seq<char> {
        match self {
            Scenario::VectorAdd { .. } => "add"@,
            Scenario::MatrixMultiply { .. } => "matmul"@,
        }
    }

    /// Program text of the kernel.
    pub open spec fn spec_kernel_source(self) -> Seq<char> {
        match self {
            Scenario::VectorAdd { .. } => VECTOR_ADD_SOURCE@,
            Scenario::MatrixMultiply { .. } => MATRIX_MULTIPLY_SOURCE@,
        }
    }

    /// The grid that the kernel's indexing is written for.
    pub open spec fn spec_grid_shape(self) -> GridShape {
        match self {
            Scenario::VectorAdd { len } => GridShape::OneDim(len),
            Scenario::MatrixMultiply { n } => GridShape::TwoDim(n, n),
        }
    }

    /// Arguments of the kernel: the three buffers, then for the matrix case its order.
    pub open spec fn spec_arguments(self) -> Seq<KernelArg> {
        match self {
            Scenario::VectorAdd { .. } => seq![KernelArg::Buffer(0), KernelArg::Buffer(1), KernelArg::Buffer(2)],
            Scenario::MatrixMultiply { n } => seq![
                KernelArg::Buffer(0),
                KernelArg::Buffer(1),
                KernelArg::Buffer(2),
                KernelArg::Scalar(n as i32),
            ],
        }
    }

    /// Host data written to input `slot` (0 or 1), as single-precision bit patterns.
    pub open spec fn spec_input(self, slot: nat) -> Seq<u32> {
        match self {
            Scenario::VectorAdd { len } => Seq::new(len as nat, |i: int| if slot == 0 { ONE_BITS } else { TWO_BITS }),
            Scenario::MatrixMultiply { n } => Seq::new((n * n) as nat, |i: int| single_bits(i as nat) as u32),
        }
    }

    /// Whether `out` is the exact element-wise sum of the vector inputs: 3.0 everywhere.
    pub open spec fn spec_sums_exact(self, out: Seq<u32>) -> bool {
        out.len() == self.spec_element_count() && forall|i: int| 0 <= i < out.len() ==> out[i] == THREE_BITS
    }

    pub fn element_count(&self) -> (r: usize)
        requires
            self.wf(),
        ensures
            r as nat == self.spec_element_count(),
    {
        match *self {
            Scenario::VectorAdd { len } => len,
            Scenario::MatrixMultiply { n } => n * n,
        }
    }

    pub fn entry_point(&self) -> (r: String)
        ensures
            r@ == self.spec_entry_point(),
    {
        match *self {
            Scenario::VectorAdd { .. } => "add".to_owned(),
            Scenario::MatrixMultiply { .. } => "matmul".to_owned(),
        }
    }

    pub fn kernel_source(&self) -> (r: String)
        ensures
            r@ == self.spec_kernel_source(),
    {
        match *self {
            Scenario::VectorAdd { .. } => VECTOR_ADD_SOURCE.to_owned(),
            Scenario::MatrixMultiply { .. } => MATRIX_MULTIPLY_SOURCE.to_owned(),
        }
    }

    pub fn grid_shape(&self) -> (r: GridShape)
        ensures
            r == self.spec_grid_shape(),
    {
        match *self {
            Scenario::VectorAdd { len } => GridShape::OneDim(len),
            Scenario::MatrixMultiply { n } => GridShape::TwoDim(n, n),
        }
    }

    pub fn arguments(&self) -> (r: Vec<KernelArg>)
        requires
            self.wf(),
        ensures
            r@ == self.spec_arguments(),
    {
        let mut args: Vec<KernelArg> = Vec::new();
        args.push(KernelArg::Buffer(0));
        args.push(KernelArg::Buffer(1));
        args.push(KernelArg::Buffer(2));
        if let Scenario::MatrixMultiply { n } = *self {
            proof {
                assert(n <= n * n) by (nonlinear_arith) requires n >= 1;
            }
            args.push(KernelArg::Scalar(n as i32));
        }
        proof {
            assert(args@ =~= self.spec_arguments());
        }
        args
    }

    /// Host data for input `slot` (0 for `a`, 1 for `b`).
    pub fn input(&self, slot: usize) -> (r: Vec<u32>)
        requires
            self.wf(),
            slot < 2,
        ensures
            r@ == self.spec_input(slot as nat),
    {
        let count = self.element_count();
        let mut data: Vec<u32> = Vec::with_capacity(count);
        let mut i: usize = 0;
        while i < count
            invariant
                self.wf(),
                count as nat == self.spec_element_count(),
                i <= count,
                data@.len() == i,
                forall|j: int| 0 <= j < i ==> data@[j] == self.spec_input(slot as nat)[j],
            decreases count - i,
        {
            let v: u32 = match *self {
                Scenario::VectorAdd { .. } => if slot == 0 { ONE_BITS } else { TWO_BITS },
                Scenario::MatrixMultiply { .. } => single_bits_of_index(i as u32),
            };
            data.push(v);
            i = i + 1;
        }
        proof {
            assert(data@ =~= self.spec_input(slot as nat));
        }
        data
    }

    /// Whether `out` holds exactly 3.0 in each of the scenario's elements: the
    /// expected sum of the vector inputs.
    pub fn sums_exact(&self, out: &Vec<u32>) -> (r: bool)
        ensures
            r == self.spec_sums_exact(out@),
    {
        let wanted: u128 = match *self {
            Scenario::VectorAdd { len } => len as u128,
            Scenario::MatrixMultiply { n } => {
                proof {
                    assert((n as u128) * (n as u128) <= 0xffff_ffff_ffff_ffffu128 * 0xffff_ffff_ffff_ffffu128) by (nonlinear_arith)
                        requires n <= 0xffff_ffff_ffff_ffffu128;
                }
                (n as u128) * (n as u128)
            },
        };
        let count = out.len();
        if count as u128 != wanted {
            return false;
        }
        let mut i: usize = 0;
        while i < count
            invariant
                out@.len() == count,
                i <= count,
                forall|j: int| 0 <= j < i ==> out@[j] == THREE_BITS,
            decreases count - i,
        {
            if out[i] != THREE_BITS {
                return false;
            }
            i = i + 1;
        }
        true
    }
}

} // verus!
