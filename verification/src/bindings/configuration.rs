//! How the interpreter is to be started: the image, the session flags and
//! the extra arguments passed on to the image.
use vstd::prelude::*;
use crate::text::views;
use super::parameters::{
    copy_strings, no_nul_in, no_nul_texts, InterpreterParameters, ParametersModel, default_parameters,
};

verus! {

/// What a configuration holds.
pub struct ConfigurationModel {
    pub image: Seq<char>,
    pub interactive_session: bool,
    pub should_print_stack_on_signals: bool,
    pub should_avoid_searching_segments_with_pinned_objects: bool,
    pub worker_thread: bool,
    pub arguments: Seq<Seq<char>>,
}

/// The configuration of an interpreter.
pub struct InterpreterConfiguration {
    image: String,
    interactive_session: bool,
    should_print_stack_on_signals: bool,
    should_avoid_searching_segments_with_pinned_objects: bool,
    worker_thread: bool,
    arguments: Vec<String>,
}

impl View for InterpreterConfiguration {
    type V = ConfigurationModel;

    closed spec fn view(&self) -> ConfigurationModel {
        ConfigurationModel {
            image: self.image@,
            interactive_session: self.interactive_session,
            should_print_stack_on_signals: self.should_print_stack_on_signals,
            should_avoid_searching_segments_with_pinned_objects:
                self.should_avoid_searching_segments_with_pinned_objects,
            worker_thread: self.worker_thread,
            arguments: views(self.arguments@),
        }
    }
}

/// The arguments the interpreter process receives: the executable, the
/// image, then the extra arguments.
pub open spec fn process_arguments(executable: Seq<char>, c: ConfigurationModel) -> Seq<Seq<char>> {
    seq![executable, c.image] + c.arguments
}

/// The parameters a configuration leads to, before the interpreter parses
/// the arguments.
pub open spec fn configured_parameters(
    executable: Seq<char>,
    environment: Seq<Seq<char>>,
    c: ConfigurationModel,
) -> ParametersModel {
    ParametersModel {
        arguments: process_arguments(executable, c),
        environment: environment,
        image_file_name: if c.image.len() == 0 { None } else { Some(c.image) },
        is_interactive_session: c.interactive_session,
        should_avoid_searching_segments_with_pinned_objects:
            c.should_avoid_searching_segments_with_pinned_objects,
        is_worker: c.worker_thread,
        ..default_parameters()
    }
}

impl Clone for InterpreterConfiguration {
    fn clone(&self) -> (result: Self)
        ensures
            result@ == self@,
    {
        InterpreterConfiguration {
            image: self.image.clone(),
            interactive_session: self.interactive_session,
            should_print_stack_on_signals: self.should_print_stack_on_signals,
            should_avoid_searching_segments_with_pinned_objects:
                self.should_avoid_searching_segments_with_pinned_objects,
            worker_thread: self.worker_thread,
            arguments: copy_strings(&self.arguments),
        }
    }
}

impl InterpreterConfiguration {
    /// A configuration for the given image: not interactive, no stack
    /// printing, no worker thread and no extra arguments.
    pub fn new(image: String) -> (result: Self)
        ensures
            result@ == (ConfigurationModel {
                image: image@,
                interactive_session: false,
                should_print_stack_on_signals: false,
                should_avoid_searching_segments_with_pinned_objects: false,
                worker_thread: false,
                arguments: Seq::empty(),
            }),
    {
        let result = InterpreterConfiguration {
            image,
            interactive_session: false,
            should_print_stack_on_signals: false,
            should_avoid_searching_segments_with_pinned_objects: false,
            worker_thread: false,
            arguments: Vec::new(),
        };
        assert(result@.arguments =~= Seq::<Seq<char>>::empty());
        result
    }

    /// The image to open.
    pub fn image(&self) -> (result: &str)
        ensures
            result@ == self@.image,
    {
        self.image.as_str()
    }

    /// Whether the interpreter is to run in a worker thread.
    pub fn is_worker_thread(&self) -> (result: bool)
        ensures
            result == self@.worker_thread,
    {
        self.worker_thread
    }

    /// Whether the stack is printed when the process receives a signal.
    pub fn should_print_stack_on_signals(&self) -> (result: bool)
        ensures
            result == self@.should_print_stack_on_signals,
    {
        self.should_print_stack_on_signals
    }

    /// Whether the session is interactive.
    pub fn is_interactive_session(&self) -> (result: bool)
        ensures
            result == self@.interactive_session,
    {
        self.interactive_session
    }

    /// The extra arguments passed on to the image.
    pub fn extra_arguments(&self) -> (result: Vec<String>)
        ensures
            views(result@) == self@.arguments,
    {
        copy_strings(&self.arguments)
    }

    /// Sets whether the interpreter runs in a worker thread.
    pub fn set_is_worker_thread(&mut self, worker_thread: bool) -> (result: &mut Self)
        ensures
            (*result)@ == (ConfigurationModel { worker_thread, ..old(self)@ }),
            *final(self) == *final(result),
    {
        self.worker_thread = worker_thread;
        self
    }

    /// Sets whether memory segments with pinned objects are skipped.
    pub fn set_should_avoid_searching_segments_with_pinned_objects(&mut self, value: bool) -> (result: &mut Self)
        ensures
            (*result)@ == (ConfigurationModel {
                should_avoid_searching_segments_with_pinned_objects: value,
                ..old(self)@
            }),
            *final(self) == *final(result),
    {
        self.should_avoid_searching_segments_with_pinned_objects = value;
        self
    }

    /// Sets whether the session is interactive.
    pub fn set_interactive_session(&mut self, interactive_session: bool) -> (result: &mut Self)
        ensures
            (*result)@ == (ConfigurationModel { interactive_session, ..old(self)@ }),
            *final(self) == *final(result),
    {
        self.interactive_session = interactive_session;
        self
    }

    /// Sets whether the stack is printed when the process receives a signal.
    pub fn set_should_print_stack_on_signals(&mut self, should_print_stack_on_signals: bool) -> (result: &mut Self)
        ensures
            (*result)@ == (ConfigurationModel { should_print_stack_on_signals, ..old(self)@ }),
            *final(self) == *final(result),
    {
        self.should_print_stack_on_signals = should_print_stack_on_signals;
        self
    }

    /// Replaces the extra arguments passed on to the image.
    pub fn set_extra_arguments(&mut self, arguments: Vec<String>) -> (result: &mut Self)
        ensures
            (*result)@ == (ConfigurationModel { arguments: views(arguments@), ..old(self)@ }),
            *final(self) == *final(result),
    {
        self.arguments = arguments;
        self
    }

    /// The interpreter parameters for this configuration, given the path of
    /// the running executable and the process environment: the arguments are
    /// the executable, the image and the extra arguments; the image file name
    /// and the session flags come from the configuration.
    pub fn create_interpreter_parameters(
        &self,
        executable_path: String,
        environment: Vec<String>,
    ) -> (result: InterpreterParameters)
        requires
            !executable_path@.contains('\0'),
            !self@.image.contains('\0'),
            no_nul_texts(self@.arguments),
            no_nul_in(environment@),
        ensures
            result@ == configured_parameters(executable_path@, views(environment@), self@),
    {
        let mut vm_args: Vec<String> = Vec::new();
        vm_args.push(executable_path);
        vm_args.push(self.image.clone());
        let mut i: usize = 0;
        let ghost head = vm_args@;
        while i < self.arguments.len()
            invariant
                i <= self.arguments@.len(),
                vm_args@.len() == 2 + i,
                vm_args@.take(2) == head,
                forall|j: int| 0 <= j < i ==> (#[trigger] vm_args@[2 + j])@ == self.arguments@[j]@,
            decreases self.arguments@.len() - i,
        {
            vm_args.push(self.arguments[i].clone());
            i = i + 1;
            assert(vm_args@.take(2) =~= head);
        }
        assert(views(vm_args@) =~= process_arguments(executable_path@, self@)) by {
            let expected = process_arguments(executable_path@, self@);
            assert(head[0]@ == executable_path@);
            assert(vm_args@[0] == vm_args@.take(2)[0]);
            assert(vm_args@[1] == vm_args@.take(2)[1]);
            assert forall|j: int| 0 <= j < vm_args@.len() implies views(vm_args@)[j] == expected[j] by {
                if j >= 2 {
                    assert(vm_args@[2 + (j - 2)]@ == self.arguments@[j - 2]@);
                    assert(self@.arguments[j - 2] == self.arguments@[j - 2]@);
                }
            }
        }
        assert(no_nul_in(vm_args@)) by {
            assert forall|j: int| 0 <= j < vm_args@.len() implies !(#[trigger] vm_args@[j])@.contains('\0') by {
                if j == 0 {
                    assert(vm_args@[0] == vm_args@.take(2)[0]);
                } else if j == 1 {
                    assert(vm_args@[1] == vm_args@.take(2)[1]);
                } else {
                    assert(vm_args@[2 + (j - 2)]@ == self.arguments@[j - 2]@);
                    assert(self@.arguments[j - 2] == self.arguments@[j - 2]@);
                }
            }
        }
        let mut parameters = InterpreterParameters::from_args(vm_args, environment);
        assert(self@.image.len() == 0 ==> self@.image =~= Seq::<char>::empty());
        parameters.set_image_file_name(self.image.clone());
        parameters.set_is_interactive_session(self.interactive_session);
        parameters.set_should_avoid_searching_segments_with_pinned_objects(
            self.should_avoid_searching_segments_with_pinned_objects,
        );
        parameters.set_is_worker(self.worker_thread);
        parameters
    }
}

} // verus!
