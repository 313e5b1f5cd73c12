use typed_accounts::arguments::{
    args_struct_name, duplicate_arguments, Argument, Arguments, ArgumentsGenerator, Context,
    GeneratorResult, StagedGenerator,
};

fn argument(name: &str, ty: &str) -> Argument {
    Argument { name: name.to_string(), ty: ty.to_string() }
}

fn pairs(arguments: &[Argument]) -> Vec<(String, String)> {
    arguments.iter().map(|a| (a.name.clone(), a.ty.clone())).collect()
}

#[test]
fn context_without_arguments_adds_nothing() {
    let context = Context { name: "Initialize".to_string(), args: None };
    let mut result = GeneratorResult::new();
    assert!(ArgumentsGenerator::new(&context).append(&mut result).is_ok());
    assert!(result.new_fields.is_empty());
    assert!(result.inside.is_empty());
    assert!(result.outside.is_empty());
}

#[test]
fn named_struct_is_used_as_it_is() {
    let context = Context {
        name: "Initialize".to_string(),
        args: Some(Arguments::Struct("InitArgs".to_string())),
    };
    let mut result = GeneratorResult::new();
    assert!(ArgumentsGenerator::new(&context).append(&mut result).is_ok());
    assert_eq!(result.new_fields.len(), 1);
    assert_eq!(result.new_fields[0].arg_type, "InitArgs");
    assert_eq!(result.inside.len(), 1);
    assert_eq!(result.inside[0].arg_type, "InitArgs");
    assert!(result.outside.is_empty());
}

#[test]
fn listed_arguments_get_a_struct_named_after_the_context() {
    let context = Context {
        name: "Transfer".to_string(),
        args: Some(Arguments::Values(vec![argument("amount", "u64"), argument("bump", "u8")])),
    };
    let mut result = GeneratorResult::new();
    assert!(ArgumentsGenerator::new(&context).append(&mut result).is_ok());
    assert_eq!(result.new_fields.len(), 1);
    assert_eq!(result.new_fields[0].arg_type, "TransferArgs");
    assert_eq!(result.inside.len(), 1);
    assert_eq!(result.inside[0].arg_type, "TransferArgs");
    assert_eq!(result.outside.len(), 1);
    assert_eq!(result.outside[0].name, "TransferArgs");
    assert_eq!(
        pairs(&result.outside[0].fields),
        vec![("amount".to_string(), "u64".to_string()), ("bump".to_string(), "u8".to_string())]
    );
}

#[test]
fn empty_list_gets_an_empty_struct() {
    let context = Context { name: "Close".to_string(), args: Some(Arguments::Values(vec![])) };
    let mut result = GeneratorResult::new();
    assert!(ArgumentsGenerator::new(&context).append(&mut result).is_ok());
    assert_eq!(result.new_fields[0].arg_type, "CloseArgs");
    assert_eq!(result.outside.len(), 1);
    assert!(result.outside[0].fields.is_empty());
}

#[test]
fn products_are_added_behind_earlier_ones() {
    let first = Context {
        name: "First".to_string(),
        args: Some(Arguments::Values(vec![argument("a", "u8")])),
    };
    let second = Context {
        name: "Second".to_string(),
        args: Some(Arguments::Struct("Shared".to_string())),
    };
    let mut result = GeneratorResult::new();
    assert!(ArgumentsGenerator::new(&first).append(&mut result).is_ok());
    assert!(ArgumentsGenerator::new(&second).append(&mut result).is_ok());
    let fields: Vec<&str> = result.new_fields.iter().map(|f| f.arg_type.as_str()).collect();
    let inside: Vec<&str> = result.inside.iter().map(|b| b.arg_type.as_str()).collect();
    assert_eq!(fields, vec!["FirstArgs", "Shared"]);
    assert_eq!(inside, vec!["FirstArgs", "Shared"]);
    assert_eq!(result.outside.len(), 1);
    assert_eq!(result.outside[0].name, "FirstArgs");
}

#[test]
fn struct_name_is_the_context_name_and_args() {
    assert_eq!(args_struct_name(&"Swap".to_string()), "SwapArgs");
    assert_eq!(args_struct_name(&String::new()), "Args");
}

#[test]
fn duplicates_keep_order_and_content() {
    let listed = vec![argument("x", "u16"), argument("y", "[u8; 4]")];
    let copy = duplicate_arguments(&listed);
    assert_eq!(pairs(&copy), pairs(&listed));
    assert_eq!(pairs(&[listed[1].duplicate()]), vec![("y".to_string(), "[u8; 4]".to_string())]);
    assert!(duplicate_arguments(&Vec::new()).is_empty());
}
