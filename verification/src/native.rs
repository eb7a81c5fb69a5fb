use vstd::prelude::*;

verus! {

/// What a buffer-filling native call came back with.
#[derive(Clone, Debug, PartialEq, Eq)]
pub enum NativeOutput {
    /// The destination buffer could not be written, so no call was made.
    NotWritable,
    /// The call returned `status`, having written into `data`.
    Returned { status: i32, data: Vec<u8> },
}

/// What a `NativeOutput` holds.
pub enum NativeOutputView {
    NotWritable,
    Returned { status: i32, data: Seq<u8> },
}

impl View for NativeOutput {
    type V = NativeOutputView;

    open spec fn view(&self) -> NativeOutputView {
        match self {
            NativeOutput::NotWritable => NativeOutputView::NotWritable,
            NativeOutput::Returned { status, data } => NativeOutputView::Returned {
                status: *status,
                data: data@,
            },
        }
    }
}

} // verus!
