//! WGSL validation before a shader reaches a graphics API, through naga.

use vstd::prelude::*;

verus! {

#[verifier::external_type_specification]
#[verifier::external_body]
pub struct ExNagaModule(naga::Module);

#[verifier::external_type_specification]
#[verifier::external_body]
pub struct ExWgslParseError(naga::front::wgsl::ParseError);

#[verifier::external_type_specification]
#[verifier::external_body]
pub struct ExNagaValidator(naga::valid::Validator);

#[verifier::external_type_specification]
#[verifier::external_body]
pub struct ExNagaModuleInfo(naga::valid::ModuleInfo);

#[verifier::external_type_specification]
#[verifier::external_body]
pub struct ExNagaValidationError(naga::valid::ValidationError);

#[verifier::external_type_specification]
#[verifier::external_body]
#[verifier::reject_recursive_types(E)]
pub struct ExNagaWithSpan<E>(naga::WithSpan<E>);

#[verifier::external_type_specification]
#[verifier::external_body]
pub struct ExNagaValidationFlags(naga::valid::ValidationFlags);

#[verifier::external_type_specification]
#[verifier::external_body]
pub struct ExNagaCapabilities(naga::valid::Capabilities);

/// Every validation check: the flag bits truncated to the defined flags.
pub const ALL_VALIDATION_FLAGS: u8 = 0xff;

/// The capabilities a validator assumes by default: multisampled shading
/// and cube array textures.
pub const DEFAULT_CAPABILITIES: u64 = 0x9000;

/// Why a shader was refused, with naga's rendered diagnostic.
#[derive(Debug, PartialEq, Eq)]
pub enum ShaderError {
    Parse { label: String, diagnostic: String },
    Validation { label: String, diagnostic: String },
}

/// Whether naga's WGSL front end parses `source`.
pub uninterp spec fn wgsl_parses(source: Seq<char>) -> bool;

/// The module naga's WGSL front end parses `source` into.
pub uninterp spec fn wgsl_module(source: Seq<char>) -> naga::Module;

/// `naga::front::wgsl::parse_str`: parses WGSL source into a module. The
/// contract claims that success and the module depend on the source text
/// alone.
#[verifier::external_body]
fn parse_wgsl(source: &str) -> (parsed: Result<naga::Module, naga::front::wgsl::ParseError>)
    ensures
        parsed is Ok <==> wgsl_parses(source@),
        parsed matches Ok(module) ==> module == wgsl_module(source@),
{
    naga::front::wgsl::parse_str(source)
}

/// `naga::front::wgsl::ParseError::emit_to_string_with_path`: renders the
/// parse error against the source, attributed to `label`. Nothing is claimed
/// of the text, which depends on the opaque error.
#[verifier::external_body]
fn parse_diagnostic(error: &naga::front::wgsl::ParseError, source: &str, label: &str) -> String {
    error.emit_to_string_with_path(source, label)
}

/// The validation flags with the given bits, undefined bits dropped.
pub uninterp spec fn validation_flags(bits: u8) -> naga::valid::ValidationFlags;

/// `naga::valid::ValidationFlags::from_bits_truncate`: the flags whose bits
/// are set in `bits`. The contract claims only that they depend on `bits`
/// alone.
#[verifier::external_body]
fn flags_from_bits(bits: u8) -> (flags: naga::valid::ValidationFlags)
    ensures
        flags == validation_flags(bits),
{
    naga::valid::ValidationFlags::from_bits_truncate(bits)
}

/// The capabilities with the given bits, undefined bits dropped.
pub uninterp spec fn capabilities(bits: u64) -> naga::valid::Capabilities;

/// `naga::valid::Capabilities::from_bits_truncate`: the capabilities whose
/// bits are set in `bits`. The contract claims only that they depend on
/// `bits` alone.
#[verifier::external_body]
fn capabilities_from_bits(bits: u64) -> (caps: naga::valid::Capabilities)
    ensures
        caps == capabilities(bits),
{
    naga::valid::Capabilities::from_bits_truncate(bits)
}

/// The validator made with `flags` and `caps`.
pub uninterp spec fn validator_for(
    flags: naga::valid::ValidationFlags,
    caps: naga::valid::Capabilities,
) -> naga::valid::Validator;

/// `naga::valid::Validator::new`: a validator for `flags` and `caps`. The
/// contract claims only that it depends on them alone.
#[verifier::external_body]
fn new_validator(flags: naga::valid::ValidationFlags, caps: naga::valid::Capabilities) -> (validator:
    naga::valid::Validator)
    ensures
        validator == validator_for(flags, caps),
{
    naga::valid::Validator::new(flags, caps)
}

/// Whether `validator` accepts `module`.
pub uninterp spec fn module_validates(validator: naga::valid::Validator, module: naga::Module) -> bool;

/// `naga::valid::Validator::validate`: validates a parsed module. The
/// validator resets itself first, so the verdict depends on the validator's
/// settings and the module alone; nothing is claimed of the validator
/// afterwards, nor that validation returns on every parsed module.
#[verifier::external_body]
fn validate_module(validator: &mut naga::valid::Validator, module: &naga::Module) -> (result: Result<
    naga::valid::ModuleInfo,
    naga::WithSpan<naga::valid::ValidationError>,
>)
    ensures
        result is Ok <==> module_validates(*old(validator), *module),
{
    validator.validate(module)
}

/// `naga::WithSpan::emit_to_string_with_path`: renders the validation error
/// against the source, attributed to `label`. Nothing is claimed of the text.
#[verifier::external_body]
fn validation_diagnostic(
    error: &naga::WithSpan<naga::valid::ValidationError>,
    source: &str,
    label: &str,
) -> String {
    error.emit_to_string_with_path(source, label)
}

/// Parses and validates WGSL before it is passed to a graphics API. A
/// source that does not parse is refused as a parse error; one that parses
/// is refused only by validation; either error carries `label`.
pub fn validate_wgsl(label: &str, source: &str) -> (result: Result<naga::Module, ShaderError>)
    ensures
        result is Ok <==> wgsl_parses(source@) && module_validates(
            validator_for(validation_flags(ALL_VALIDATION_FLAGS), capabilities(DEFAULT_CAPABILITIES)),
            wgsl_module(source@),
        ),
        result matches Ok(module) ==> module == wgsl_module(source@),
        !wgsl_parses(source@) <==> result matches Err(ShaderError::Parse { .. }),
        result matches Err(ShaderError::Parse { label: named, .. }) ==> named@ == label@,
        result matches Err(ShaderError::Validation { label: named, .. }) ==> named@ == label@,
{
    let module = match parse_wgsl(source) {
        Ok(module) => module,
        Err(error) => {
            return Err(
                ShaderError::Parse {
                    label: label.to_owned(),
                    diagnostic: parse_diagnostic(&error, source, label),
                },
            );
        },
    };
    let flags = flags_from_bits(ALL_VALIDATION_FLAGS);
    let caps = capabilities_from_bits(DEFAULT_CAPABILITIES);
    let mut validator = new_validator(flags, caps);
    match validate_module(&mut validator, &module) {
        Ok(_) => Ok(module),
        Err(error) => Err(
            ShaderError::Validation {
                label: label.to_owned(),
                diagnostic: validation_diagnostic(&error, source, label),
            },
        ),
    }
}

} // verus!
