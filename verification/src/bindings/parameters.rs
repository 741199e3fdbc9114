//! The parameters handed to the interpreter: the process arguments and
//! environment, the image to open, the session flags and memory sizes, and
//! the parameter vectors meant for the virtual machine and for the image.
use vstd::prelude::*;
use crate::text::{str_eq, views};

verus! {

/// No string of the list holds a zero character.
pub open spec fn no_nul_in(strings: Seq<String>) -> bool {
    forall|i: int| 0 <= i < strings.len() ==> !(#[trigger] strings[i])@.contains('\0')
}

/// No text of the list holds a zero character.
pub open spec fn no_nul_texts(texts: Seq<Seq<char>>) -> bool {
    forall|i: int| 0 <= i < texts.len() ==> !(#[trigger] texts[i]).contains('\0')
}

/// The parameters meant for the virtual machine itself.
pub struct VirtualMachineParameters {
    parameters: Vec<String>,
}

/// The parameters meant for the image.
pub struct ImageParameters {
    parameters: Vec<String>,
}

impl View for VirtualMachineParameters {
    type V = Seq<Seq<char>>;

    closed spec fn view(&self) -> Seq<Seq<char>> {
        views(self.parameters@)
    }
}

impl View for ImageParameters {
    type V = Seq<Seq<char>>;

    closed spec fn view(&self) -> Seq<Seq<char>> {
        views(self.parameters@)
    }
}

/// What a step of a walk over `entries` hands out at `position`: the entry
/// there, or `None` past the last one.
pub open spec fn walk_step(entries: Seq<Seq<char>>, position: nat) -> Option<Seq<char>> {
    if position < entries.len() {
        Some(entries[position as int])
    } else {
        None
    }
}

/// Where a walk stands after a step from `position`: one further, or
/// where it was once past the last entry.
pub open spec fn walk_position_after(entries: Seq<Seq<char>>, position: nat) -> nat {
    if position < entries.len() {
        position + 1
    } else {
        position
    }
}

/// What `steps` steps of a walk over `entries` hand out, in order, from
/// `position`.
pub open spec fn walk_from(entries: Seq<Seq<char>>, position: nat, steps: nat) -> Seq<Option<Seq<char>>>
    decreases steps,
{
    if steps == 0 {
        Seq::empty()
    } else {
        seq![walk_step(entries, position)] + walk_from(entries, walk_position_after(entries, position), (steps - 1) as nat)
    }
}

/// Every entry, in order, each handed out as `Some`.
pub open spec fn handed_out(entries: Seq<Seq<char>>) -> Seq<Option<Seq<char>>> {
    Seq::new(entries.len(), |i: int| Some(entries[i]))
}

/// `count` times `None`.
pub open spec fn nones(count: nat) -> Seq<Option<Seq<char>>> {
    Seq::new(count, |i: int| None::<Seq<char>>)
}

proof fn lemma_walk_past_the_end(entries: Seq<Seq<char>>, position: nat, steps: nat)
    requires
        position >= entries.len(),
    ensures
        walk_from(entries, position, steps) == nones(steps),
    decreases steps,
{
    if steps > 0 {
        lemma_walk_past_the_end(entries, position, (steps - 1) as nat);
        assert(seq![None::<Seq<char>>] + nones((steps - 1) as nat) =~= nones(steps));
    } else {
        assert(nones(0) =~= Seq::<Option<Seq<char>>>::empty());
    }
}

proof fn lemma_walk_from_position(entries: Seq<Seq<char>>, position: nat, extra: nat)
    requires
        position <= entries.len(),
    ensures
        walk_from(entries, position, (entries.len() - position) as nat + extra)
            == handed_out(entries.skip(position as int)) + nones(extra),
    decreases entries.len() - position,
{
    if position == entries.len() {
        lemma_walk_past_the_end(entries, position, extra);
        assert(handed_out(entries.skip(position as int)) =~= Seq::<Option<Seq<char>>>::empty());
        assert(handed_out(entries.skip(position as int)) + nones(extra) =~= nones(extra));
    } else {
        lemma_walk_from_position(entries, position + 1, extra);
        let rest = handed_out(entries.skip(position + 1 as int)) + nones(extra);
        assert(seq![Some(entries[position as int])] + rest
            =~= handed_out(entries.skip(position as int)) + nones(extra));
    }
}

/// A walk over a parameter vector, started at the first entry, hands out
/// every entry in order, each as `Some`, and `None` on every step after
/// the last: it counts as many entries as the vector holds, then nothing.
pub proof fn law_walk_hands_out_every_entry_then_none(entries: Seq<Seq<char>>, extra: nat)
    ensures
        walk_from(entries, 0, entries.len() + extra) == handed_out(entries) + nones(extra),
        walk_from(entries, 0, entries.len() + extra).len() == entries.len() + extra,
        forall|i: int| 0 <= i < entries.len() ==> #[trigger] walk_from(entries, 0, entries.len() + extra)[i] == Some(entries[i]),
        forall|i: int| entries.len() <= i < entries.len() + extra ==> #[trigger] walk_from(entries, 0, entries.len() + extra)[i] is None,
{
    lemma_walk_from_position(entries, 0, extra);
    assert(entries.skip(0) =~= entries);
    let walk = handed_out(entries) + nones(extra);
    assert forall|i: int| entries.len() <= i < entries.len() + extra implies #[trigger] walk[i] is None by {
        assert(walk[i] == nones(extra)[i - entries.len()]);
    }
}

/// Walks a parameter vector from its first entry to its last.
pub struct ParametersVectorIterator<'a> {
    vector: &'a Vec<String>,
    index: usize,
}

impl<'a> ParametersVectorIterator<'a> {
    /// The entries that the walk goes through, from the first.
    pub closed spec fn entries(&self) -> Seq<Seq<char>> {
        views(self.vector@)
    }

    /// How many entries the walk has already handed out.
    pub closed spec fn position(&self) -> nat {
        self.index as nat
    }

    pub closed spec fn well_formed(&self) -> bool {
        self.index <= self.vector@.len()
    }

    /// The next entry, or `None` once every entry was handed out.
    pub fn next(&mut self) -> (result: Option<String>)
        requires
            old(self).well_formed(),
        ensures
            final(self).well_formed(),
            final(self).entries() == old(self).entries(),
            old(self).position() < old(self).entries().len() ==> {
                &&& result matches Some(s)
                &&& s@ == old(self).entries()[old(self).position() as int]
                &&& final(self).position() == old(self).position() + 1
            },
            old(self).position() >= old(self).entries().len() ==> {
                &&& result is None
                &&& final(self).position() == old(self).position()
            },
            match result {
                Some(s) => walk_step(old(self).entries(), old(self).position()) == Some(s@),
                None => walk_step(old(self).entries(), old(self).position()) is None,
            },
            final(self).position() == walk_position_after(old(self).entries(), old(self).position()),
    {
        if self.index < self.vector.len() {
            let s = self.vector[self.index].clone();
            self.index = self.index + 1;
            Some(s)
        } else {
            None
        }
    }
}

impl VirtualMachineParameters {
    /// A vector holding the given parameters.
    pub fn new(parameters: Vec<String>) -> (result: Self)
        ensures
            result@ == views(parameters@),
    {
        VirtualMachineParameters { parameters }
    }

    /// The number of parameters.
    pub fn len(&self) -> (result: usize)
        ensures
            result == self@.len(),
    {
        self.parameters.len()
    }

    /// A walk over the parameters from the first.
    pub fn iter(&self) -> (result: ParametersVectorIterator<'_>)
        ensures
            result.well_formed(),
            result.entries() == self@,
            result.position() == 0,
    {
        ParametersVectorIterator { vector: &self.parameters, index: 0 }
    }

    /// The parameters as a list: what a walk from the first hands out.
    pub fn as_vec(&self) -> (result: Vec<String>)
        ensures
            views(result@) == self@,
    {
        collect_walk(self.iter())
    }
}

impl ImageParameters {
    /// A vector holding the given parameters.
    pub fn new(parameters: Vec<String>) -> (result: Self)
        ensures
            result@ == views(parameters@),
    {
        ImageParameters { parameters }
    }

    /// The number of parameters.
    pub fn len(&self) -> (result: usize)
        ensures
            result == self@.len(),
    {
        self.parameters.len()
    }

    /// A walk over the parameters from the first.
    pub fn iter(&self) -> (result: ParametersVectorIterator<'_>)
        ensures
            result.well_formed(),
            result.entries() == self@,
            result.position() == 0,
    {
        ParametersVectorIterator { vector: &self.parameters, index: 0 }
    }

    /// The parameters as a list: what a walk from the first hands out.
    pub fn as_vec(&self) -> (result: Vec<String>)
        ensures
            views(result@) == self@,
    {
        collect_walk(self.iter())
    }
}

/// What a walk hands out from its first step until it hands out `None`.
fn collect_walk(walk: ParametersVectorIterator<'_>) -> (result: Vec<String>)
    requires
        walk.well_formed(),
        walk.position() == 0,
    ensures
        views(result@) == walk.entries(),
{
    let ghost entries = walk.entries();
    let mut walk = walk;
    let mut result: Vec<String> = Vec::new();
    assert(views(result@) =~= entries.take(0));
    loop
        invariant
            walk.well_formed(),
            walk.entries() == entries,
            walk.position() <= entries.len(),
            views(result@) == entries.take(walk.position() as int),
        ensures
            views(result@) == entries,
        decreases entries.len() - walk.position(),
    {
        let ghost position = walk.position();
        match walk.next() {
            Some(s) => {
                assert(views(result@.push(s)) =~= views(result@).push(s@));
                assert(entries.take(position + 1 as int) =~= entries.take(position as int).push(entries[position as int]));
                result.push(s);
            },
            None => {
                assert(entries.take(position as int) =~= entries);
                break;
            },
        }
    }
    result
}

/// A copy of a list of strings.
pub fn copy_strings(strings: &Vec<String>) -> (result: Vec<String>)
    ensures
        views(result@) == views(strings@),
        result@.len() == strings@.len(),
        forall|i: int| 0 <= i < strings@.len() ==> (#[trigger] result@[i])@ == strings@[i]@,
{
    let mut result: Vec<String> = Vec::new();
    let mut i: usize = 0;
    while i < strings.len()
        invariant
            i <= strings@.len(),
            result@.len() == i,
            forall|j: int| 0 <= j < i ==> (#[trigger] result@[j])@ == strings@[j]@,
        decreases strings@.len() - i,
    {
        result.push(strings[i].clone());
        i = i + 1;
    }
    assert(views(result@) =~= views(strings@));
    result
}

/// What the interpreter parameters hold.
pub struct ParametersModel {
    pub image_file_name: Option<Seq<char>>,
    pub is_default_image: bool,
    pub default_image_found: bool,
    pub is_interactive_session: bool,
    pub is_worker: bool,
    pub should_avoid_searching_segments_with_pinned_objects: bool,
    pub max_stack_frames_to_print: usize,
    pub max_old_space_size: usize,
    pub max_code_size: usize,
    pub eden_size: usize,
    pub arguments: Seq<Seq<char>>,
    pub environment: Seq<Seq<char>>,
    pub virtual_machine_parameters: Seq<Seq<char>>,
    pub image_parameters: Seq<Seq<char>>,
}

/// The parameters with which the interpreter is started.
pub struct InterpreterParameters {
    image_file_name: Option<String>,
    is_default_image: bool,
    default_image_found: bool,
    is_interactive_session: bool,
    is_worker: bool,
    should_avoid_searching_segments_with_pinned_objects: bool,
    max_stack_frames_to_print: usize,
    max_old_space_size: usize,
    max_code_size: usize,
    eden_size: usize,
    arguments: Vec<String>,
    environment: Vec<String>,
    vm_parameters: VirtualMachineParameters,
    image_parameters: ImageParameters,
}

impl View for InterpreterParameters {
    type V = ParametersModel;

    closed spec fn view(&self) -> ParametersModel {
        ParametersModel {
            image_file_name: match self.image_file_name {
                Some(s) => Some(s@),
                None => None,
            },
            is_default_image: self.is_default_image,
            default_image_found: self.default_image_found,
            is_interactive_session: self.is_interactive_session,
            is_worker: self.is_worker,
            should_avoid_searching_segments_with_pinned_objects:
                self.should_avoid_searching_segments_with_pinned_objects,
            max_stack_frames_to_print: self.max_stack_frames_to_print,
            max_old_space_size: self.max_old_space_size,
            max_code_size: self.max_code_size,
            eden_size: self.eden_size,
            arguments: views(self.arguments@),
            environment: views(self.environment@),
            virtual_machine_parameters: self.vm_parameters@,
            image_parameters: self.image_parameters@,
        }
    }
}

/// The parameters before any argument is given: no image, no arguments,
/// every flag off and every size zero.
pub open spec fn default_parameters() -> ParametersModel {
    ParametersModel {
        image_file_name: None,
        is_default_image: false,
        default_image_found: false,
        is_interactive_session: false,
        is_worker: false,
        should_avoid_searching_segments_with_pinned_objects: false,
        max_stack_frames_to_print: 0,
        max_old_space_size: 0,
        max_code_size: 0,
        eden_size: 0,
        arguments: Seq::empty(),
        environment: Seq::empty(),
        virtual_machine_parameters: Seq::empty(),
        image_parameters: Seq::empty(),
    }
}

/// The image file name as text; empty when none is set.
pub open spec fn image_name_text(p: ParametersModel) -> Seq<char> {
    match p.image_file_name {
        Some(s) => s,
        None => Seq::empty(),
    }
}

/// The parameters after setting the image file name: unchanged when the
/// name is the current one; otherwise with that name, and no longer the
/// default image.
pub open spec fn with_image_file_name(p: ParametersModel, name: Seq<char>) -> ParametersModel {
    if image_name_text(p) == name {
        p
    } else {
        ParametersModel { image_file_name: Some(name), is_default_image: false, ..p }
    }
}

/// The image file name reads back as it was set.
pub proof fn lemma_image_file_name_read_back(p: ParametersModel, name: Seq<char>)
    ensures
        image_name_text(with_image_file_name(p, name)) == name,
{
}

impl Default for InterpreterParameters {
    fn default() -> (result: Self)
        ensures
            result@ == default_parameters(),
    {
        let result = InterpreterParameters {
            image_file_name: None,
            is_default_image: false,
            default_image_found: false,
            is_interactive_session: false,
            is_worker: false,
            should_avoid_searching_segments_with_pinned_objects: false,
            max_stack_frames_to_print: 0,
            max_old_space_size: 0,
            max_code_size: 0,
            eden_size: 0,
            arguments: Vec::new(),
            environment: Vec::new(),
            vm_parameters: VirtualMachineParameters::new(Vec::new()),
            image_parameters: ImageParameters::new(Vec::new()),
        };
        assert(result@.arguments =~= Seq::<Seq<char>>::empty());
        assert(result@.environment =~= Seq::<Seq<char>>::empty());
        assert(result@.virtual_machine_parameters =~= Seq::<Seq<char>>::empty());
        assert(result@.image_parameters =~= Seq::<Seq<char>>::empty());
        result
    }
}

impl InterpreterParameters {
    /// The default parameters with the given process arguments and
    /// environment (entries of the form `NAME=value`). The interpreter's own
    /// parser later reads the options out of the arguments.
    pub fn from_args(arguments: Vec<String>, environment: Vec<String>) -> (result: Self)
        requires
            no_nul_in(arguments@),
            no_nul_in(environment@),
        ensures
            result@ == (ParametersModel {
                arguments: views(arguments@),
                environment: views(environment@),
                ..default_parameters()
            }),
    {
        let mut parameters = Self::default();
        parameters.set_arguments(arguments);
        parameters.environment = environment;
        parameters
    }

    /// The name of the image file; empty when none is set.
    pub fn image_file_name(&self) -> (result: String)
        ensures
            result@ == image_name_text(self@),
    {
        match &self.image_file_name {
            Some(name) => name.clone(),
            None => String::new(),
        }
    }

    /// Sets the image file name. A name equal to the current one changes
    /// nothing; any other name is set and the image is no longer the default
    /// one.
    pub fn set_image_file_name(&mut self, file_name: String)
        requires
            !file_name@.contains('\0'),
        ensures
            final(self)@ == with_image_file_name(old(self)@, file_name@),
    {
        let current = self.image_file_name();
        if str_eq(current.as_str(), file_name.as_str()) {
            return;
        }
        self.image_file_name = Some(file_name);
        self.is_default_image = false;
    }

    /// The process arguments.
    pub fn arguments(&self) -> (result: Vec<String>)
        ensures
            views(result@) == self@.arguments,
    {
        copy_strings(&self.arguments)
    }

    /// Whether any process argument is given.
    pub fn has_arguments(&self) -> (result: bool)
        ensures
            result == (self@.arguments.len() > 0),
    {
        self.arguments.len() > 0
    }

    /// Replaces the process arguments.
    pub fn set_arguments(&mut self, arguments: Vec<String>)
        requires
            no_nul_in(arguments@),
        ensures
            final(self)@ == (ParametersModel { arguments: views(arguments@), ..old(self)@ }),
    {
        self.arguments = arguments;
    }

    /// The process environment.
    pub fn environment(&self) -> (result: Vec<String>)
        ensures
            views(result@) == self@.environment,
    {
        copy_strings(&self.environment)
    }

    /// Whether the image is the default one.
    pub fn is_default_image(&self) -> (result: bool)
        ensures
            result == self@.is_default_image,
    {
        self.is_default_image
    }

    /// Whether a default image was found.
    pub fn is_default_image_found(&self) -> (result: bool)
        ensures
            result == self@.default_image_found,
    {
        self.default_image_found
    }

    /// Whether the session is interactive.
    pub fn is_interactive_session(&self) -> (result: bool)
        ensures
            result == self@.is_interactive_session,
    {
        self.is_interactive_session
    }

    /// Sets whether the session is interactive.
    pub fn set_is_interactive_session(&mut self, is_interactive_session: bool)
        ensures
            final(self)@ == (ParametersModel { is_interactive_session, ..old(self)@ }),
    {
        self.is_interactive_session = is_interactive_session;
    }

    /// Whether the interpreter runs in a worker thread.
    pub fn is_worker(&self) -> (result: bool)
        ensures
            result == self@.is_worker,
    {
        self.is_worker
    }

    /// Sets whether the interpreter runs in a worker thread.
    pub fn set_is_worker(&mut self, is_worker: bool)
        ensures
            final(self)@ == (ParametersModel { is_worker, ..old(self)@ }),
    {
        self.is_worker = is_worker;
    }

    /// Sets whether memory segments with pinned objects are skipped.
    pub fn set_should_avoid_searching_segments_with_pinned_objects(&mut self, value: bool)
        ensures
            final(self)@ == (ParametersModel {
                should_avoid_searching_segments_with_pinned_objects: value,
                ..old(self)@
            }),
    {
        self.should_avoid_searching_segments_with_pinned_objects = value;
    }

    /// How many stack frames are printed at most.
    pub fn max_stack_frames_to_print(&self) -> (result: usize)
        ensures
            result == self@.max_stack_frames_to_print,
    {
        self.max_stack_frames_to_print
    }

    /// The largest size of the old space.
    pub fn max_old_space_size(&self) -> (result: usize)
        ensures
            result == self@.max_old_space_size,
    {
        self.max_old_space_size
    }

    /// The largest size of the code zone.
    pub fn max_code_size(&self) -> (result: usize)
        ensures
            result == self@.max_code_size,
    {
        self.max_code_size
    }

    /// The size of the eden space.
    pub fn eden_size(&self) -> (result: usize)
        ensures
            result == self@.eden_size,
    {
        self.eden_size
    }

    /// The parameters meant for the image.
    pub fn image_parameters(&self) -> (result: &ImageParameters)
        ensures
            result@ == self@.image_parameters,
    {
        &self.image_parameters
    }

    /// The parameters meant for the virtual machine.
    pub fn virtual_machine_parameters(&self) -> (result: &VirtualMachineParameters)
        ensures
            result@ == self@.virtual_machine_parameters,
    {
        &self.vm_parameters
    }
}

} // verus!
