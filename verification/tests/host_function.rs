use hyperlight::host_function::{
    check_arguments, host_function_definition, HostFunctionError, ParamValueType, Parameters,
    ReturnType, SupportedParameterOrReturnType as T, SupportedParameterOrReturnValue as V,
};

#[test]
fn definition_of_a_function_without_parameters_declares_none() {
    let def = host_function_definition("Nothing", &vec![], T::Int).unwrap();
    assert_eq!(def.function_name, "Nothing");
    assert_eq!(def.parameter_types, None);
    assert_eq!(def.return_type, ReturnType::Int);
}

#[test]
fn definition_lists_parameter_types_in_order() {
    let def = host_function_definition(
        "PrintOutput",
        &vec![T::String, T::Int, T::Long, T::Bool, T::ByteArray],
        T::Void,
    )
    .unwrap();
    assert_eq!(
        def.parameter_types,
        Some(vec![
            ParamValueType::String,
            ParamValueType::Int,
            ParamValueType::Long,
            ParamValueType::Bool,
            ParamValueType::VecBytes
        ])
    );
    assert_eq!(def.return_type, ReturnType::Void);
}

#[test]
fn first_undeclarable_parameter_type_is_the_error() {
    assert_eq!(
        host_function_definition("f", &vec![T::Int, T::ULong, T::Void], T::Int),
        Err(HostFunctionError::UnsupportedParameterType { ty: T::ULong })
    );
    assert_eq!(
        host_function_definition("f", &vec![T::Void], T::UInt),
        Err(HostFunctionError::UnsupportedParameterType { ty: T::Void })
    );
}

#[test]
fn undeclarable_return_type_is_the_error() {
    assert_eq!(
        host_function_definition("f", &vec![T::Int], T::IntPtr),
        Err(HostFunctionError::UnsupportedReturnType { ty: T::IntPtr })
    );
}

#[test]
fn type_conversions() {
    assert_eq!(T::ByteArray.to_param_value_type(), Ok(ParamValueType::VecBytes));
    assert_eq!(
        T::UInt.to_param_value_type(),
        Err(HostFunctionError::UnsupportedParameterType { ty: T::UInt })
    );
    assert_eq!(T::Void.to_return_type(), Ok(ReturnType::Void));
    assert_eq!(T::ByteArray.to_return_type(), Ok(ReturnType::VecBytes));
    assert_eq!(
        T::ULong.to_return_type(),
        Err(HostFunctionError::UnsupportedReturnType { ty: T::ULong })
    );
}

#[test]
fn function_without_parameters_ignores_arguments() {
    let args = Parameters(vec![V::Int(1), V::Bool(true)]);
    assert_eq!(check_arguments(&vec![], &args), Ok(()));
}

#[test]
fn well_typed_call_is_accepted() {
    let args = Parameters(vec![
        V::String("hello".to_string()),
        V::Int(-3),
        V::ByteArray(vec![1, 2, 3]),
    ]);
    assert_eq!(check_arguments(&vec![T::String, T::Int, T::ByteArray], &args), Ok(()));
}

#[test]
fn wrong_argument_count_is_refused() {
    let args = Parameters(vec![V::Int(1)]);
    assert_eq!(
        check_arguments(&vec![T::Int, T::Int], &args),
        Err(HostFunctionError::ArgumentCountMismatch { expected: 2, got: 1 })
    );
}

#[test]
fn argument_types_are_left_to_the_conversion() {
    let args = Parameters(vec![V::Int(1), V::Long(2), V::UInt(3)]);
    assert_eq!(check_arguments(&vec![T::Int, T::Int, T::Bool], &args), Ok(()));
}

#[test]
fn count_mismatch_message_for_one_parameter() {
    let args = Parameters(vec![V::Int(1), V::Int(2)]);
    let err = check_arguments(&vec![T::Int], &args).unwrap_err();
    assert_eq!(err.message(), "Expected 1 argument, got 2");
}

#[test]
fn count_mismatch_message_for_several_parameters() {
    let params = vec![T::Int; 10];
    let args = Parameters(vec![V::Int(1), V::Int(2), V::Int(3)]);
    let err = check_arguments(&params, &args).unwrap_err();
    assert_eq!(err.message(), "Expected 10 arguments, got 3");
    let none = Parameters(vec![]);
    let err = check_arguments(&vec![T::Bool, T::Bool], &none).unwrap_err();
    assert_eq!(err.message(), "Expected 2 arguments, got 0");
}

#[test]
fn unsupported_type_messages() {
    let err = host_function_definition("f", &vec![T::UInt], T::Int).unwrap_err();
    assert_eq!(err.message(), "Unsupported parameter type: UInt");
    let err = host_function_definition("f", &vec![], T::IntPtr).unwrap_err();
    assert_eq!(err.message(), "Unsupported return type: IntPtr");
}

#[test]
fn value_types() {
    assert_eq!(V::Int(0).get_hyperlight_type(), T::Int);
    assert_eq!(V::ULong(0).get_hyperlight_type(), T::ULong);
    assert_eq!(V::IntPtr(0x1000).get_hyperlight_type(), T::IntPtr);
    assert_eq!(V::Void.get_hyperlight_type(), T::Void);
    assert_eq!(V::String(String::new()).get_hyperlight_type(), T::String);
}
