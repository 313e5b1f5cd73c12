//! The instruction arguments of a context, and what is generated for them.
//!
//! A context either names a struct that holds its arguments or lists the
//! arguments one by one. In the second case a struct is generated for them,
//! named after the context. Either way the context gets a field `args` of the
//! struct's type, and a statement that reads the arguments from the
//! instruction data.

use vstd::prelude::*;
use vstd::string::StringExecFns;

verus! {

/// One argument of an instruction: its name and its type.
pub struct Argument {
    pub name: String,
    pub ty: String,
}

/// An argument as a value.
pub struct ArgumentView {
    pub name: Seq<char>,
    pub ty: Seq<char>,
}

impl View for Argument {
    type V = ArgumentView;

    open spec fn view(&self) -> ArgumentView {
        ArgumentView { name: self.name@, ty: self.ty@ }
    }
}

/// The arguments of an instruction.
pub enum Arguments {
    /// The arguments are the fields of the struct of this name.
    Struct(String),
    /// The arguments are listed, in this order.
    Values(Vec<Argument>),
}

/// The arguments of an instruction as a value.
pub enum ArgumentsView {
    Struct(Seq<char>),
    Values(Seq<ArgumentView>),
}

impl View for Arguments {
    type V = ArgumentsView;

    open spec fn view(&self) -> ArgumentsView {
        match self {
            Arguments::Struct(name) => ArgumentsView::Struct(name@),
            Arguments::Values(values) => ArgumentsView::Values(
                values@.map_values(|a: Argument| a@),
            ),
        }
    }
}

/// What is known of the context for which code is generated.
pub struct Context {
    /// The name of the context's struct.
    pub name: String,
    /// The arguments of the instruction, if it has any.
    pub args: Option<Arguments>,
}

/// A context as a value.
pub struct ContextView {
    pub name: Seq<char>,
    pub args: Option<ArgumentsView>,
}

impl View for Context {
    type V = ContextView;

    open spec fn view(&self) -> ContextView {
        ContextView {
            name: self.name@,
            args: match self.args {
                Some(args) => Some(args@),
                None => None,
            },
        }
    }
}

/// The field `pub args: Arg<'info, T>` that a context gets, by its `T`.
pub struct ArgsField {
    pub arg_type: String,
}

/// The statement that reads the arguments of type `T` from the instruction
/// data and binds them to `args`, by its `T`.
pub struct ArgsBinding {
    pub arg_type: String,
}

/// A struct that is generated to hold listed arguments. It is laid out as in
/// C and can be read from any bytes of its size.
pub struct ArgsStruct {
    pub name: String,
    pub fields: Vec<Argument>,
}

/// A generated struct as a value.
pub struct ArgsStructView {
    pub name: Seq<char>,
    pub fields: Seq<ArgumentView>,
}

impl View for ArgsStruct {
    type V = ArgsStructView;

    open spec fn view(&self) -> ArgsStructView {
        ArgsStructView { name: self.name@, fields: self.fields@.map_values(|a: Argument| a@) }
    }
}

/// What the generators have produced so far.
pub struct GeneratorResult {
    /// Fields to add to the context's struct.
    pub new_fields: Vec<ArgsField>,
    /// Statements to run inside the context's constructor.
    pub inside: Vec<ArgsBinding>,
    /// Items to put beside the context's struct.
    pub outside: Vec<ArgsStruct>,
}

/// The products of the generators as a value.
pub struct GeneratorView {
    pub new_fields: Seq<Seq<char>>,
    pub inside: Seq<Seq<char>>,
    pub outside: Seq<ArgsStructView>,
}

impl View for GeneratorResult {
    type V = GeneratorView;

    open spec fn view(&self) -> GeneratorView {
        GeneratorView {
            new_fields: self.new_fields@.map_values(|f: ArgsField| f.arg_type@),
            inside: self.inside@.map_values(|b: ArgsBinding| b.arg_type@),
            outside: self.outside@.map_values(|s: ArgsStruct| s@),
        }
    }
}

/// What ends the name of a struct that is generated for listed arguments.
pub open spec fn args_suffix() -> Seq<char> {
    seq!['A', 'r', 'g', 's']
}

/// The name of the struct that holds the listed arguments of a context.
pub open spec fn generated_name(context_name: Seq<char>) -> Seq<char> {
    context_name + args_suffix()
}

/// The products once the arguments of `context` have been seen to.
///
/// A context without arguments adds nothing. Otherwise a field and a binding
/// of the arguments' type are added, and for listed arguments the struct that
/// holds them.
pub open spec fn appended(context: ContextView, result: GeneratorView) -> GeneratorView {
    match context.args {
        None => result,
        Some(ArgumentsView::Struct(name)) => GeneratorView {
            new_fields: result.new_fields.push(name),
            inside: result.inside.push(name),
            outside: result.outside,
        },
        Some(ArgumentsView::Values(fields)) => GeneratorView {
            new_fields: result.new_fields.push(generated_name(context.name)),
            inside: result.inside.push(generated_name(context.name)),
            outside: result.outside.push(
                ArgsStructView { name: generated_name(context.name), fields },
            ),
        },
    }
}

impl Argument {
    /// A copy of the argument.
    pub fn duplicate(&self) -> (copy: Argument)
        ensures
            copy@ == self@,
    {
        Argument { name: self.name.clone(), ty: self.ty.clone() }
    }
}

/// A copy of a list of arguments.
pub fn duplicate_arguments(arguments: &Vec<Argument>) -> (copy: Vec<Argument>)
    ensures
        copy@.map_values(|a: Argument| a@) == arguments@.map_values(|a: Argument| a@),
{
    let mut copy: Vec<Argument> = Vec::new();
    let mut i: usize = 0;
    while i < arguments.len()
        invariant
            i <= arguments@.len(),
            copy@.len() == i,
            forall|j: int| 0 <= j < i ==> copy@[j]@ == arguments@[j]@,
        decreases arguments@.len() - i,
    {
        copy.push(arguments[i].duplicate());
        i = i + 1;
    }
    assert(copy@.map_values(|a: Argument| a@) =~= arguments@.map_values(|a: Argument| a@));
    copy
}

/// The name of the struct that is generated for the listed arguments of the
/// context of the given name.
pub fn args_struct_name(context_name: &String) -> (name: String)
    ensures
        name@ == generated_name(context_name@),
{
    let mut name = context_name.clone();
    proof {
        reveal_strlit("Args");
    }
    name.append("Args");
    assert(name@ =~= generated_name(context_name@));
    name
}

impl GeneratorResult {
    /// Nothing has been produced yet.
    pub fn new() -> (result: Self)
        ensures
            result@.new_fields.len() == 0,
            result@.inside.len() == 0,
            result@.outside.len() == 0,
    {
        GeneratorResult { new_fields: Vec::new(), inside: Vec::new(), outside: Vec::new() }
    }
}

/// Why code could not be generated.
pub struct GenerationError {
    pub message: String,
}

/// One stage of code generation: it adds its products to those of the
/// stages before it.
pub trait StagedGenerator {
    fn append(&mut self, result: &mut GeneratorResult) -> (done: Result<(), GenerationError>);
}

/// The stage that sees to the arguments of an instruction.
pub struct ArgumentsGenerator<'a>(&'a Context);

impl<'a> ArgumentsGenerator<'a> {
    /// The stage for the given context.
    pub fn new(context: &'a Context) -> (generator: Self)
        ensures
            generator.context() == context,
    {
        ArgumentsGenerator(context)
    }

    /// The context that the stage works for.
    pub closed spec fn context(&self) -> &Context {
        self.0
    }
}

impl StagedGenerator for ArgumentsGenerator<'_> {
    /// Adds what the arguments of the context need. This stage never fails.
    fn append(&mut self, result: &mut GeneratorResult) -> (done: Result<(), GenerationError>)
        ensures
            done.is_ok(),
            final(result)@ == appended(old(self).context()@, old(result)@),
            final(self).context() == old(self).context(),
    {
        let args = match &self.0.args {
            Some(args) => args,
            None => {
                return Ok(());
            },
        };
        let (name, args_struct) = match args {
            Arguments::Struct(name) => (name.clone(), None),
            Arguments::Values(values) => {
                let struct_name = args_struct_name(&self.0.name);
                let generated = ArgsStruct {
                    name: struct_name.clone(),
                    fields: duplicate_arguments(values),
                };
                (struct_name, Some(generated))
            },
        };
        result.new_fields.push(ArgsField { arg_type: name.clone() });
        result.inside.push(ArgsBinding { arg_type: name });
        if let Some(generated) = args_struct {
            result.outside.push(generated);
        }
        proof {
            assert(final(result)@.new_fields =~= appended(
                old(self).context()@,
                old(result)@,
            ).new_fields);
            assert(final(result)@.inside =~= appended(old(self).context()@, old(result)@).inside);
            assert(final(result)@.outside =~= appended(
                old(self).context()@,
                old(result)@,
            ).outside);
        }
        Ok(())
    }
}

} // verus!
