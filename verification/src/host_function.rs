use vstd::prelude::*;

use crate::text::{decimal, push_decimal};

verus! {

broadcast use vstd::string::to_string_from_display_ensures_for_str;

/// All the types that can be used as parameters or return types for a host
/// function.
#[derive(Clone, Copy, Debug, PartialEq, Eq, Structural)]
pub enum SupportedParameterOrReturnType {
    /// i32
    Int,
    /// i64
    Long,
    /// u64
    ULong,
    /// bool
    Bool,
    /// String
    String,
    /// Vec<u8>
    ByteArray,
    /// pointer-sized address
    IntPtr,
    /// u32
    UInt,
    /// Void (return types only)
    Void,
}

/// A value passed to, or returned from, a host function.
#[derive(Clone, Debug, PartialEq, Eq)]
pub enum SupportedParameterOrReturnValue {
    Int(i32),
    Long(i64),
    ULong(u64),
    Bool(bool),
    String(String),
    ByteArray(Vec<u8>),
    /// An address, carried as an integer.
    IntPtr(usize),
    UInt(u32),
    Void,
}

/// The arguments of one call of a host function.
pub struct Parameters(pub Vec<SupportedParameterOrReturnValue>);

/// The value one call of a host function returns.
pub struct Return(pub SupportedParameterOrReturnValue);

/// The type of a value.
pub open spec fn type_of_value(v: SupportedParameterOrReturnValue) -> SupportedParameterOrReturnType {
    match v {
        SupportedParameterOrReturnValue::Int(_) => SupportedParameterOrReturnType::Int,
        SupportedParameterOrReturnValue::Long(_) => SupportedParameterOrReturnType::Long,
        SupportedParameterOrReturnValue::ULong(_) => SupportedParameterOrReturnType::ULong,
        SupportedParameterOrReturnValue::Bool(_) => SupportedParameterOrReturnType::Bool,
        SupportedParameterOrReturnValue::String(_) => SupportedParameterOrReturnType::String,
        SupportedParameterOrReturnValue::ByteArray(_) => SupportedParameterOrReturnType::ByteArray,
        SupportedParameterOrReturnValue::IntPtr(_) => SupportedParameterOrReturnType::IntPtr,
        SupportedParameterOrReturnValue::UInt(_) => SupportedParameterOrReturnType::UInt,
        SupportedParameterOrReturnValue::Void => SupportedParameterOrReturnType::Void,
    }
}

impl SupportedParameterOrReturnValue {
    /// The type of this value.
    pub fn get_hyperlight_type(&self) -> (t: SupportedParameterOrReturnType)
        ensures
            t == type_of_value(*self),
    {
        match self {
            SupportedParameterOrReturnValue::Int(_) => SupportedParameterOrReturnType::Int,
            SupportedParameterOrReturnValue::Long(_) => SupportedParameterOrReturnType::Long,
            SupportedParameterOrReturnValue::ULong(_) => SupportedParameterOrReturnType::ULong,
            SupportedParameterOrReturnValue::Bool(_) => SupportedParameterOrReturnType::Bool,
            SupportedParameterOrReturnValue::String(_) => SupportedParameterOrReturnType::String,
            SupportedParameterOrReturnValue::ByteArray(_) => SupportedParameterOrReturnType::ByteArray,
            SupportedParameterOrReturnValue::IntPtr(_) => SupportedParameterOrReturnType::IntPtr,
            SupportedParameterOrReturnValue::UInt(_) => SupportedParameterOrReturnType::UInt,
            SupportedParameterOrReturnValue::Void => SupportedParameterOrReturnType::Void,
        }
    }
}

/// The parameter types that a host function definition can declare.
#[derive(Clone, Copy, Debug, PartialEq, Eq, Structural)]
pub enum ParamValueType {
    Int,
    Long,
    String,
    Bool,
    VecBytes,
}

/// The return types that a host function definition can declare.
#[derive(Clone, Copy, Debug, PartialEq, Eq, Structural)]
pub enum ReturnType {
    Int,
    Long,
    String,
    Bool,
    Void,
    VecBytes,
}

/// What a host function is registered as: its name, its parameter types (absent
/// for a function of no arguments) and its return type.
#[derive(Clone, Debug, PartialEq, Eq)]
pub struct HostFunctionDefinition {
    pub function_name: String,
    pub parameter_types: Option<Vec<ParamValueType>>,
    pub return_type: ReturnType,
}

/// Why a host function could not be registered or called.
#[derive(Clone, Debug, PartialEq, Eq)]
pub enum HostFunctionError {
    /// The type cannot be declared as a parameter type.
    UnsupportedParameterType { ty: SupportedParameterOrReturnType },
    /// The type cannot be declared as a return type.
    UnsupportedReturnType { ty: SupportedParameterOrReturnType },
    /// The call has `got` arguments where the function takes `expected`.
    ArgumentCountMismatch { expected: usize, got: usize },
}

/// The name of a supported type, as `{:?}` prints it.
pub open spec fn parameter_type_label(t: SupportedParameterOrReturnType) -> Seq<char> {
    match t {
        SupportedParameterOrReturnType::Int => "Int"@,
        SupportedParameterOrReturnType::Long => "Long"@,
        SupportedParameterOrReturnType::ULong => "ULong"@,
        SupportedParameterOrReturnType::Bool => "Bool"@,
        SupportedParameterOrReturnType::String => "String"@,
        SupportedParameterOrReturnType::ByteArray => "ByteArray"@,
        SupportedParameterOrReturnType::IntPtr => "IntPtr"@,
        SupportedParameterOrReturnType::UInt => "UInt"@,
        SupportedParameterOrReturnType::Void => "Void"@,
    }
}

impl SupportedParameterOrReturnType {
    /// The name of this type.
    pub fn name(&self) -> (s: &'static str)
        ensures
            s@ == parameter_type_label(*self),
    {
        match self {
            SupportedParameterOrReturnType::Int => "Int",
            SupportedParameterOrReturnType::Long => "Long",
            SupportedParameterOrReturnType::ULong => "ULong",
            SupportedParameterOrReturnType::Bool => "Bool",
            SupportedParameterOrReturnType::String => "String",
            SupportedParameterOrReturnType::ByteArray => "ByteArray",
            SupportedParameterOrReturnType::IntPtr => "IntPtr",
            SupportedParameterOrReturnType::UInt => "UInt",
            SupportedParameterOrReturnType::Void => "Void",
        }
    }
}

impl HostFunctionError {
    /// The text of the error. A wrong argument count reads
    /// `Expected <n> arguments, got <m>` (`Expected 1 argument, got <m>` for
    /// a function of one parameter); a type that cannot be declared reads
    /// `Unsupported parameter type: <type>` or `Unsupported return type: <type>`.
    pub fn message(&self) -> (text: String)
        ensures
            self matches HostFunctionError::ArgumentCountMismatch { expected, got } ==> text@ == (
            if expected == 1 {
                "Expected 1 argument, got "@ + decimal(got as nat)
            } else {
                "Expected "@ + decimal(expected as nat) + " arguments, got "@ + decimal(got as nat)
            }),
            self matches HostFunctionError::UnsupportedParameterType { ty } ==> text@
                == "Unsupported parameter type: "@ + parameter_type_label(*ty),
            self matches HostFunctionError::UnsupportedReturnType { ty } ==> text@
                == "Unsupported return type: "@ + parameter_type_label(*ty),
    {
        match self {
            HostFunctionError::ArgumentCountMismatch { expected, got } => {
                if *expected == 1 {
                    let mut text = "Expected 1 argument, got ".to_string();
                    push_decimal(&mut text, *got);
                    text
                } else {
                    let mut text = "Expected ".to_string();
                    push_decimal(&mut text, *expected);
                    text.append(" arguments, got ");
                    push_decimal(&mut text, *got);
                    text
                }
            },
            HostFunctionError::UnsupportedParameterType { ty } => {
                let mut text = "Unsupported parameter type: ".to_string();
                text.append(ty.name());
                text
            },
            HostFunctionError::UnsupportedReturnType { ty } => {
                let mut text = "Unsupported return type: ".to_string();
                text.append(ty.name());
                text
            },
        }
    }
}

/// The declarable parameter type of a supported type, if it has one.
pub open spec fn param_value_type_of(t: SupportedParameterOrReturnType) -> Option<ParamValueType> {
    match t {
        SupportedParameterOrReturnType::Int => Some(ParamValueType::Int),
        SupportedParameterOrReturnType::Long => Some(ParamValueType::Long),
        SupportedParameterOrReturnType::String => Some(ParamValueType::String),
        SupportedParameterOrReturnType::Bool => Some(ParamValueType::Bool),
        SupportedParameterOrReturnType::ByteArray => Some(ParamValueType::VecBytes),
        _ => None,
    }
}

/// The declarable return type of a supported type, if it has one.
pub open spec fn return_type_of(t: SupportedParameterOrReturnType) -> Option<ReturnType> {
    match t {
        SupportedParameterOrReturnType::Int => Some(ReturnType::Int),
        SupportedParameterOrReturnType::Long => Some(ReturnType::Long),
        SupportedParameterOrReturnType::String => Some(ReturnType::String),
        SupportedParameterOrReturnType::Bool => Some(ReturnType::Bool),
        SupportedParameterOrReturnType::Void => Some(ReturnType::Void),
        SupportedParameterOrReturnType::ByteArray => Some(ReturnType::VecBytes),
        _ => None,
    }
}

impl SupportedParameterOrReturnType {
    /// The parameter type under which this type is declared.
    pub fn to_param_value_type(self) -> (r: Result<ParamValueType, HostFunctionError>)
        ensures
            param_value_type_of(self) matches Some(p) ==> r == Ok::<
                ParamValueType,
                HostFunctionError,
            >(p),
            param_value_type_of(self) is None ==> r == Err::<ParamValueType, HostFunctionError>(
                HostFunctionError::UnsupportedParameterType { ty: self },
            ),
    {
        match self {
            SupportedParameterOrReturnType::Int => Ok(ParamValueType::Int),
            SupportedParameterOrReturnType::Long => Ok(ParamValueType::Long),
            SupportedParameterOrReturnType::String => Ok(ParamValueType::String),
            SupportedParameterOrReturnType::Bool => Ok(ParamValueType::Bool),
            SupportedParameterOrReturnType::ByteArray => Ok(ParamValueType::VecBytes),
            _ => Err(HostFunctionError::UnsupportedParameterType { ty: self }),
        }
    }

    /// The return type under which this type is declared.
    pub fn to_return_type(self) -> (r: Result<ReturnType, HostFunctionError>)
        ensures
            return_type_of(self) matches Some(t) ==> r == Ok::<ReturnType, HostFunctionError>(t),
            return_type_of(self) is None ==> r == Err::<ReturnType, HostFunctionError>(
                HostFunctionError::UnsupportedReturnType { ty: self },
            ),
    {
        match self {
            SupportedParameterOrReturnType::Int => Ok(ReturnType::Int),
            SupportedParameterOrReturnType::Long => Ok(ReturnType::Long),
            SupportedParameterOrReturnType::String => Ok(ReturnType::String),
            SupportedParameterOrReturnType::Bool => Ok(ReturnType::Bool),
            SupportedParameterOrReturnType::Void => Ok(ReturnType::Void),
            SupportedParameterOrReturnType::ByteArray => Ok(ReturnType::VecBytes),
            _ => Err(HostFunctionError::UnsupportedReturnType { ty: self }),
        }
    }
}

/// The first `k` parameter types all have a declarable parameter type.
pub open spec fn params_declarable(params: Seq<SupportedParameterOrReturnType>, k: int) -> bool {
    forall|j: int| 0 <= j < k ==> (#[trigger] param_value_type_of(params[j])) is Some
}

/// Builds the definition under which a host function with the given
/// parameter and return types is registered. A function of no parameters
/// declares none (`parameter_types` is absent); otherwise the parameter types
/// are converted in order, and the first one that cannot be declared is the
/// error; the return type is converted last.
pub fn host_function_definition(
    name: &str,
    params: &Vec<SupportedParameterOrReturnType>,
    ret: SupportedParameterOrReturnType,
) -> (r: Result<HostFunctionDefinition, HostFunctionError>)
    ensures
        forall|i: int|
            0 <= i < params.len() && params_declarable(params@, i) && param_value_type_of(
                #[trigger] params@[i],
            ) is None ==> r == Err::<HostFunctionDefinition, HostFunctionError>(
                HostFunctionError::UnsupportedParameterType { ty: params@[i] },
            ),
        params_declarable(params@, params.len() as int) && return_type_of(ret) is None ==> r
            == Err::<HostFunctionDefinition, HostFunctionError>(
            HostFunctionError::UnsupportedReturnType { ty: ret },
        ),
        params_declarable(params@, params.len() as int) && return_type_of(ret) is Some ==> (
        r matches Ok(def) && def.function_name@ == name@ && Some(def.return_type) == return_type_of(
            ret,
        ) && (params.len() == 0 ==> def.parameter_types is None) && (params.len() > 0 ==> (
        def.parameter_types matches Some(v) && v@.len() == params.len() && forall|j: int|
            0 <= j < params.len() ==> Some(#[trigger] v@[j]) == param_value_type_of(params@[j])))),
{
    let mut converted: Vec<ParamValueType> = Vec::new();
    let mut i: usize = 0;
    while i < params.len()
        invariant
            i <= params.len(),
            converted@.len() == i,
            params_declarable(params@, i as int),
            forall|j: int| 0 <= j < i ==> Some(#[trigger] converted@[j]) == param_value_type_of(params@[j]),
        decreases params.len() - i,
    {
        let p = params[i].to_param_value_type()?;
        converted.push(p);
        i = i + 1;
    }
    let return_type = ret.to_return_type()?;
    let parameter_types = if params.len() == 0 {
        None
    } else {
        Some(converted)
    };
    Ok(HostFunctionDefinition { function_name: name.to_string(), parameter_types, return_type })
}

/// Whether a call with `args` gets past the argument count check of a host
/// function with parameter types `params`: a function of no parameters
/// ignores its arguments; any other takes exactly as many arguments as it
/// has parameters. (Each argument is then converted to its parameter's type,
/// and that conversion reports a wrong type.)
pub open spec fn count_accepted(
    params: Seq<SupportedParameterOrReturnType>,
    args: Seq<SupportedParameterOrReturnValue>,
) -> bool {
    params.len() == 0 || args.len() == params.len()
}

/// Checks the number of arguments of a call against the parameters of the
/// host function called, the way its registered wrapper does before it
/// converts the arguments: a function of no parameters ignores its
/// arguments; any other refuses a call with a different number of them.
pub fn check_arguments(
    params: &Vec<SupportedParameterOrReturnType>,
    args: &Parameters,
) -> (r: Result<(), HostFunctionError>)
    ensures
        r is Ok <==> count_accepted(params@, args.0@),
        !count_accepted(params@, args.0@) ==> r == Err::<(), HostFunctionError>(
            HostFunctionError::ArgumentCountMismatch { expected: params.len(), got: args.0.len() },
        ),
{
    if params.len() != 0 && args.0.len() != params.len() {
        return Err(
            HostFunctionError::ArgumentCountMismatch { expected: params.len(), got: args.0.len() },
        );
    }
    Ok(())
}

/// A call with as many arguments as the function has parameters passes the
/// count check, and so does any call of a function of no parameters.
pub proof fn lemma_right_count_accepted(
    params: Seq<SupportedParameterOrReturnType>,
    args: Seq<SupportedParameterOrReturnValue>,
)
    requires
        args.len() == params.len() || params.len() == 0,
    ensures
        count_accepted(params, args),
{
}

/// A function with parameters refuses a call with a different number of
/// arguments.
pub proof fn lemma_wrong_count_refused(
    params: Seq<SupportedParameterOrReturnType>,
    args: Seq<SupportedParameterOrReturnValue>,
)
    requires
        params.len() > 0,
        args.len() != params.len(),
    ensures
        !count_accepted(params, args),
{
}

/// Every type that can be declared as a parameter type can be declared as a
/// return type, and `Void` only as a return type.
pub proof fn lemma_parameter_types_are_return_types(t: SupportedParameterOrReturnType)
    ensures
        param_value_type_of(t) is Some ==> return_type_of(t) is Some,
        param_value_type_of(SupportedParameterOrReturnType::Void) is None,
        return_type_of(SupportedParameterOrReturnType::Void) is Some,
{
}

/// Each declarable return type is declared as the return type of the same
/// kind (i32 as `Int`, i64 as `Long`, `String`, `bool`, no value as `Void`,
/// bytes as `VecBytes`), the others have none, and no two types share one.
pub proof fn lemma_return_types_keep_their_kind()
    ensures
        return_type_of(SupportedParameterOrReturnType::Int) == Some(ReturnType::Int),
        return_type_of(SupportedParameterOrReturnType::Long) == Some(ReturnType::Long),
        return_type_of(SupportedParameterOrReturnType::String) == Some(ReturnType::String),
        return_type_of(SupportedParameterOrReturnType::Bool) == Some(ReturnType::Bool),
        return_type_of(SupportedParameterOrReturnType::Void) == Some(ReturnType::Void),
        return_type_of(SupportedParameterOrReturnType::ByteArray) == Some(ReturnType::VecBytes),
        return_type_of(SupportedParameterOrReturnType::ULong) is None,
        return_type_of(SupportedParameterOrReturnType::IntPtr) is None,
        return_type_of(SupportedParameterOrReturnType::UInt) is None,
        forall|a: SupportedParameterOrReturnType, b: SupportedParameterOrReturnType|
            #[trigger] return_type_of(a) is Some && return_type_of(a) == #[trigger] return_type_of(b)
                ==> a == b,
{
}

/// Each declarable parameter type is declared as the parameter type of the
/// same kind (i32 as `Int`, i64 as `Long`, `String`, `bool`, bytes as
/// `VecBytes`), the others have none, and no two types share one.
pub proof fn lemma_parameter_types_keep_their_kind()
    ensures
        param_value_type_of(SupportedParameterOrReturnType::Int) == Some(ParamValueType::Int),
        param_value_type_of(SupportedParameterOrReturnType::Long) == Some(ParamValueType::Long),
        param_value_type_of(SupportedParameterOrReturnType::String) == Some(ParamValueType::String),
        param_value_type_of(SupportedParameterOrReturnType::Bool) == Some(ParamValueType::Bool),
        param_value_type_of(SupportedParameterOrReturnType::ByteArray) == Some(
            ParamValueType::VecBytes,
        ),
        param_value_type_of(SupportedParameterOrReturnType::ULong) is None,
        param_value_type_of(SupportedParameterOrReturnType::IntPtr) is None,
        param_value_type_of(SupportedParameterOrReturnType::UInt) is None,
        param_value_type_of(SupportedParameterOrReturnType::Void) is None,
        forall|a: SupportedParameterOrReturnType, b: SupportedParameterOrReturnType|
            #[trigger] param_value_type_of(a) is Some && param_value_type_of(a)
                == #[trigger] param_value_type_of(b) ==> a == b,
{
}

/// A value's type is the type of the same kind (an `Int` value has type
/// `Int`, and so on), and values of different kinds have different types.
pub proof fn lemma_value_types_keep_their_kind(v: SupportedParameterOrReturnValue)
    ensures
        v is Int <==> type_of_value(v) == SupportedParameterOrReturnType::Int,
        v is Long <==> type_of_value(v) == SupportedParameterOrReturnType::Long,
        v is ULong <==> type_of_value(v) == SupportedParameterOrReturnType::ULong,
        v is Bool <==> type_of_value(v) == SupportedParameterOrReturnType::Bool,
        v is String <==> type_of_value(v) == SupportedParameterOrReturnType::String,
        v is ByteArray <==> type_of_value(v) == SupportedParameterOrReturnType::ByteArray,
        v is IntPtr <==> type_of_value(v) == SupportedParameterOrReturnType::IntPtr,
        v is UInt <==> type_of_value(v) == SupportedParameterOrReturnType::UInt,
        v is Void <==> type_of_value(v) == SupportedParameterOrReturnType::Void,
{
}

/// Each type is named by its own Rust variant name, so no two types share a name.
pub proof fn lemma_type_labels_are_variant_names()
    ensures
        parameter_type_label(SupportedParameterOrReturnType::Int) == "Int"@,
        parameter_type_label(SupportedParameterOrReturnType::Long) == "Long"@,
        parameter_type_label(SupportedParameterOrReturnType::ULong) == "ULong"@,
        parameter_type_label(SupportedParameterOrReturnType::Bool) == "Bool"@,
        parameter_type_label(SupportedParameterOrReturnType::String) == "String"@,
        parameter_type_label(SupportedParameterOrReturnType::ByteArray) == "ByteArray"@,
        parameter_type_label(SupportedParameterOrReturnType::IntPtr) == "IntPtr"@,
        parameter_type_label(SupportedParameterOrReturnType::UInt) == "UInt"@,
        parameter_type_label(SupportedParameterOrReturnType::Void) == "Void"@,
{
}

} // verus!
