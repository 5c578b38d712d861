//! The two handle types and the marshaling rules of the native-call adapter.
//!
//! A handle is a single machine-word integer issued by the native compositor
//! library's object table; this layer never interprets it, with one exception:
//! the view value `0` is the reserved "root" pseudo-view (the desktop
//! background). Views and outputs are distinct types even though both wrap
//! the same representation; conversion between them is explicit and
//! non-validating, a compatibility escape hatch only.

use vstd::prelude::*;

verus! {

/// A handle to a view (a window-like surface). The value `0` is the root
/// pseudo-view; every other value denotes a native-owned window.
#[derive(Clone, Copy, PartialEq, Eq, Structural, Debug)]
pub struct WlcView(usize);

/// A handle to a display output. No value is reserved; validity is decided
/// by the native library alone.
#[derive(Clone, Copy, PartialEq, Eq, Structural, Debug)]
pub struct WlcOutput(usize);

impl View for WlcView {
    type V = usize;

    closed spec fn view(&self) -> usize {
        self.0
    }
}

impl View for WlcOutput {
    type V = usize;

    closed spec fn view(&self) -> usize {
        self.0
    }
}

impl WlcView {
    /// Whether this is the root pseudo-view.
    pub open spec fn is_root_spec(self) -> bool {
        self@ == 0
    }

    /// Whether this denotes a window, i.e. anything but the root pseudo-view.
    pub open spec fn is_window_spec(self) -> bool {
        self@ != 0
    }

    /// The same handle value reinterpreted as an output handle.
    pub closed spec fn spec_as_output(self) -> WlcOutput {
        WlcOutput(self.0)
    }

    /// Wraps a raw handle value received from a native call.
    pub fn from_native(handle: usize) -> (view: WlcView)
        ensures
            view@ == handle,
    {
        WlcView(handle)
    }

    /// The raw handle value to hand to a native call.
    pub fn native_handle(&self) -> (handle: usize)
        ensures
            handle == self@,
    {
        self.0
    }

    /// The root pseudo-view (desktop background). Involves no native call.
    pub fn root() -> (view: WlcView)
        ensures
            view@ == 0,
            view.is_root_spec(),
    {
        WlcView(0)
    }

    /// Whether this view is the root pseudo-view.
    pub fn is_root(&self) -> (root: bool)
        ensures
            root == self.is_root_spec(),
    {
        self.0 == 0
    }

    /// Whether this view is a window, the opposite of `is_root`.
    pub fn is_window(&self) -> (window: bool)
        ensures
            window == self.is_window_spec(),
    {
        self.0 != 0
    }

    /// Compatibility/debugging conversion: the native library stores views
    /// and outputs in one table, so the same value can be reinterpreted as
    /// an output. Non-validating; the caller must know the value is
    /// meaningful as an output.
    pub fn as_output(self) -> (output: WlcOutput)
        ensures
            output == self.spec_as_output(),
            output@ == self@,
    {
        WlcOutput::from(self)
    }
}

impl WlcOutput {
    /// The same handle value reinterpreted as a view handle.
    pub closed spec fn spec_as_view(self) -> WlcView {
        WlcView(self.0)
    }

    /// Wraps a raw handle value received from a native call.
    pub fn from_native(handle: usize) -> (output: WlcOutput)
        ensures
            output@ == handle,
    {
        WlcOutput(handle)
    }

    /// The raw handle value to hand to a native call.
    pub fn native_handle(&self) -> (handle: usize)
        ensures
            handle == self@,
    {
        self.0
    }

    /// Compatibility/debugging conversion, the inverse direction of
    /// `WlcView::as_output`; non-validating in the same way.
    pub fn as_view(self) -> (view: WlcView)
        ensures
            view == self.spec_as_view(),
            view@ == self@,
    {
        WlcView::from(self)
    }
}

impl From<WlcView> for WlcOutput {
    fn from(view: WlcView) -> (output: WlcOutput) {
        WlcOutput(view.0)
    }
}

impl vstd::std_specs::convert::FromSpecImpl<WlcView> for WlcOutput {
    open spec fn obeys_from_spec() -> bool {
        true
    }

    open spec fn from_spec(view: WlcView) -> WlcOutput {
        view.spec_as_output()
    }
}

impl From<WlcOutput> for WlcView {
    fn from(output: WlcOutput) -> (view: WlcView) {
        WlcView(output.0)
    }
}

impl vstd::std_specs::convert::FromSpecImpl<WlcOutput> for WlcView {
    open spec fn obeys_from_spec() -> bool {
        true
    }

    open spec fn from_spec(output: WlcOutput) -> WlcView {
        output.spec_as_view()
    }
}

/// The raw handle values of a view stack, in stack order: what a native
/// call that replaces an output's stack is handed.
pub open spec fn stack_handles(views: Seq<WlcView>) -> Seq<usize> {
    views.map_values(|view: WlcView| view@)
}

/// `views` is the typed reading of the native snapshot `handles`: same
/// length, and the view at each position wraps the handle value at the
/// same position.
pub open spec fn wraps_handles(views: Seq<WlcView>, handles: Seq<usize>) -> bool {
    &&& views.len() == handles.len()
    &&& forall|i: int| 0 <= i < views.len() ==> (#[trigger] views[i])@ == handles[i]
}

/// Same as `wraps_handles`, for output handles.
pub open spec fn wraps_output_handles(outputs: Seq<WlcOutput>, handles: Seq<usize>) -> bool {
    &&& outputs.len() == handles.len()
    &&& forall|i: int| 0 <= i < outputs.len() ==> (#[trigger] outputs[i])@ == handles[i]
}

/// Turns text read from the native side into an owned string: a null
/// pointer (no value) arrives here as `None` and becomes the empty string;
/// decoded text is passed through unchanged. Absence is an ordinary answer,
/// never an error.
pub fn text_from_native(raw: Option<String>) -> (text: String)
    ensures
        raw is None ==> text@ == Seq::<char>::empty(),
        raw matches Some(decoded) ==> text@ == decoded@,
{
    match raw {
        None => String::new(),
        Some(decoded) => decoded,
    }
}

impl WlcView {
    /// The handle value a close request must be issued for, or `None` when
    /// no native call may be made: the root pseudo-view cannot be closed,
    /// and the guard is enforced here, not by the native library.
    pub fn close_request(&self) -> (request: Option<usize>)
        ensures
            self.is_root_spec() ==> request is None,
            self.is_window_spec() ==> request == Some(self@),
    {
        if self.is_root() {
            None
        } else {
            Some(self.0)
        }
    }

    /// Reads the answer of the native geometry query: `None` stands for a
    /// null pointer (the view has no geometry) and stays an explicitly
    /// absent result, distinct from any concrete value — in particular from
    /// a zero-sized geometry; a concrete value passes through unchanged.
    pub fn geometry_from_native(raw: Option<crate::types::Geometry>) -> (geometry: Option<
        crate::types::Geometry,
    >)
        ensures
            geometry == raw,
            geometry is None <==> raw is None,
    {
        raw
    }
}

impl WlcOutput {
    /// Reads the native list-of-outputs answer: a null array (`None`)
    /// means no outputs and becomes the empty collection, never an error;
    /// otherwise every raw handle value is wrapped, in order.
    pub fn list_from_native(raw: Option<Vec<usize>>) -> (outputs: Vec<WlcOutput>)
        ensures
            raw is None ==> outputs@ == Seq::<WlcOutput>::empty(),
            raw matches Some(handles) ==> wraps_output_handles(outputs@, handles@),
    {
        match raw {
            None => Vec::new(),
            Some(handles) => {
                let mut outputs: Vec<WlcOutput> = Vec::new();
                let mut i: usize = 0;
                while i < handles.len()
                    invariant
                        i <= handles.len(),
                        outputs@.len() == i,
                        forall|j: int| 0 <= j < i ==> (#[trigger] outputs@[j])@ == handles@[j],
                    decreases handles.len() - i,
                {
                    outputs.push(WlcOutput(handles[i]));
                    i += 1;
                }
                outputs
            },
        }
    }

    /// Reads the native view-stack answer for an output: a null array
    /// (`None`) becomes the empty stack; otherwise the raw handle values
    /// are wrapped in stack order — position `i` of the answer is position
    /// `i` of the result, since the order is load-bearing for window
    /// management.
    pub fn views_from_native(raw: Option<Vec<usize>>) -> (views: Vec<WlcView>)
        ensures
            raw is None ==> views@ == Seq::<WlcView>::empty(),
            raw matches Some(handles) ==> wraps_handles(views@, handles@),
    {
        match raw {
            None => Vec::new(),
            Some(handles) => {
                let mut views: Vec<WlcView> = Vec::new();
                let mut i: usize = 0;
                while i < handles.len()
                    invariant
                        i <= handles.len(),
                        views@.len() == i,
                        forall|j: int| 0 <= j < i ==> (#[trigger] views@[j])@ == handles@[j],
                    decreases handles.len() - i,
                {
                    views.push(WlcView(handles[i]));
                    i += 1;
                }
                views
            },
        }
    }

    /// Marshals a replacement view stack for the native call that installs
    /// it: the raw handle values of `views`, in the given order, nothing
    /// added and nothing dropped.
    pub fn stack_for_native(views: &Vec<WlcView>) -> (handles: Vec<usize>)
        ensures
            handles@ == stack_handles(views@),
            wraps_handles(views@, handles@),
    {
        let mut handles: Vec<usize> = Vec::new();
        let mut i: usize = 0;
        while i < views.len()
            invariant
                i <= views@.len(),
                handles@.len() == i,
                forall|j: int| 0 <= j < i ==> #[trigger] handles@[j] == views@[j]@,
            decreases views@.len() - i,
        {
            handles.push(views[i].0);
            i += 1;
        }
        proof {
            assert(handles@ =~= stack_handles(views@));
        }
        handles
    }

    /// Maps the native answer to the one refusable operation, replacing an
    /// output's view stack, onto this layer's result: acceptance is `Ok`,
    /// refusal is `Err` with a descriptive message — if and only if.
    pub fn set_views_outcome(accepted: bool) -> (outcome: Result<(), &'static str>)
        ensures
            accepted <==> outcome is Ok,
            !accepted ==> (outcome matches Err(message) && message@ == "Could not set views on output"@),
    {
        if accepted {
            Ok(())
        } else {
            Err("Could not set views on output")
        }
    }

    /// The handle value to hand to the native focus call: the given
    /// output's value, or `0` — which selects no live object and so clears
    /// output focus — when no output is given.
    pub fn focus_target(output: Option<&WlcOutput>) -> (target: usize)
        ensures
            output is None ==> target == 0,
            output matches Some(chosen) ==> target == chosen@,
    {
        match output {
            None => 0,
            Some(chosen) => chosen.0,
        }
    }
}

/// Every view is either the root pseudo-view or a window, never both.
pub proof fn lemma_root_window_partition(view: WlcView)
    ensures
        view.is_window_spec() == !view.is_root_spec(),
{
}

/// Reinterpreting a view as an output and back yields the very same view:
/// both conversions keep the underlying handle value exactly.
pub proof fn lemma_view_conversion_round_trip(view: WlcView)
    ensures
        view.spec_as_output().spec_as_view() == view,
        view.spec_as_output()@ == view@,
{
}

/// Reinterpreting an output as a view and back yields the very same output.
pub proof fn lemma_output_conversion_round_trip(output: WlcOutput)
    ensures
        output.spec_as_view().spec_as_output() == output,
        output.spec_as_view()@ == output@,
{
}

/// A handle carries nothing but its value: two views wrapping the same
/// handle value are the same view.
pub proof fn lemma_view_identity(a: WlcView, b: WlcView)
    requires
        a@ == b@,
    ensures
        a == b,
{
}

/// The native snapshot determines the typed stack: two stacks read from
/// the same sequence of raw handle values are equal, element for element
/// and in the same order. So between two readings of an output's stack,
/// the result can differ only where the native state itself differed.
pub proof fn lemma_snapshot_determines_stack(a: Seq<WlcView>, b: Seq<WlcView>, handles: Seq<usize>)
    requires
        wraps_handles(a, handles),
        wraps_handles(b, handles),
    ensures
        a == b,
{
    assert forall|i: int| 0 <= i < a.len() implies a[i] == b[i] by {
        lemma_view_identity(a[i], b[i]);
    }
    assert(a =~= b);
}

/// Every stack is a reading of its own marshaled handle values.
pub proof fn lemma_stack_wraps_own_handles(views: Seq<WlcView>)
    ensures
        wraps_handles(views, stack_handles(views)),
{
}

/// Round trip through the native representation: a stack read back from
/// exactly the handle values that an installing call was handed is the
/// stack that was handed over — the marshaling in the two directions loses
/// no view, adds none, and keeps the order exactly.
pub proof fn lemma_stack_marshal_round_trip(sent: Seq<WlcView>, reread: Seq<WlcView>)
    requires
        wraps_handles(reread, stack_handles(sent)),
    ensures
        reread == sent,
{
    lemma_stack_wraps_own_handles(sent);
    lemma_snapshot_determines_stack(reread, sent, stack_handles(sent));
}

} // verus!

