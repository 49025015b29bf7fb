//! Validation of a job configuration, field by field.

use crate::error::{ConfigError, ConfigErrorKind};
use crate::gaussian::{ConfigView, GaussConfig};
use crate::grammar::{
    chars_of, cpu_shape, gpu_forms, gpu_shape, has_cpu_range, has_gpu_list, has_gpu_pair,
    has_gpu_range, has_marker, has_memory, keywords_shape, memory_shape,
};
use vstd::prelude::*;

verus! {

/// The first thing wrong with a configuration, if anything is.  The fields
/// are looked at in a fixed order: memory, processors, keywords, and then
/// the GPU assignment where there is one.  Checkpoint, title, charge and
/// multiplicity are taken as they are.
pub open spec fn first_violation(config: ConfigView) -> Option<ConfigErrorKind> {
    if !memory_shape(config.mem) {
        Some(ConfigErrorKind::Memory)
    } else if !cpu_shape(config.cpu) {
        Some(ConfigErrorKind::CPU)
    } else if !keywords_shape(config.key_words) {
        Some(ConfigErrorKind::KeyWords)
    } else if config.gpu matches Some(gpu) && !gpu_shape(gpu) {
        Some(ConfigErrorKind::GPU)
    } else {
        None
    }
}

/// A configuration with nothing wrong: every field that has a grammar meets
/// it.
pub open spec fn acceptable(config: ConfigView) -> bool {
    first_violation(config) is None
}

/// There is no half-valid configuration: nothing is wrong with one exactly
/// where memory, processors and keywords each meet their grammar, and the
/// GPU assignment too where there is one.
pub proof fn lemma_acceptable_field_by_field(config: ConfigView)
    ensures
        acceptable(config) <==> memory_shape(config.mem) && cpu_shape(config.cpu)
            && keywords_shape(config.key_words) && (config.gpu matches Some(gpu) ==> gpu_shape(
            gpu,
        )),
{
}

/// Checks the text fields of a configuration against their grammars.
pub struct Validator {}

impl Validator {
    /// Validates a configuration and reports the first field at fault.
    pub fn validate_config(config: &GaussConfig) -> (res: Result<(), ConfigError>)
        ensures
            first_violation(config@) is None ==> res is Ok,
            first_violation(config@) matches Some(kind) ==> (res matches Err(e) && e@ == kind),
    {
        Self::validate_mem(config)?;
        Self::validate_cpu(config)?;
        Self::validate_key_words(config)?;

        // The GPU field is held to its grammar only where one was given.
        if config.gpu.is_some() {
            Self::validate_gpu(config)?;
        }
        Ok(())
    }

    /// Memory is an amount followed by one of the units KB, MB, GB, TB, in
    /// any case.
    pub fn validate_mem(config: &GaussConfig) -> (res: Result<(), ConfigError>)
        ensures
            res is Ok <==> memory_shape(config.mem@),
            res matches Err(e) ==> e@ == ConfigErrorKind::Memory,
    {
        let to_match = chars_of(config.mem.as_str());
        let error = ConfigError::new(ConfigErrorKind::Memory);

        Self::validate(has_memory(to_match.as_slice()), error)
    }

    /// The processor range begins with a digit, a dash and another digit.
    pub fn validate_cpu(config: &GaussConfig) -> (res: Result<(), ConfigError>)
        ensures
            res is Ok <==> cpu_shape(config.cpu@),
            res matches Err(e) ==> e@ == ConfigErrorKind::CPU,
    {
        let to_match = chars_of(config.cpu.as_str());
        let error = ConfigError::new(ConfigErrorKind::CPU);

        Self::validate(has_cpu_range(to_match.as_slice()), error)
    }

    /// Gaussian16 has far too many keyword combinations to check here: the
    /// field only has to hold a `#` followed by a letter, and Gaussian16
    /// turns the job down if the keywords are wrong.
    pub fn validate_key_words(config: &GaussConfig) -> (res: Result<(), ConfigError>)
        ensures
            res is Ok <==> keywords_shape(config.key_words@),
            res matches Err(e) ==> e@ == ConfigErrorKind::KeyWords,
    {
        let to_match = chars_of(config.key_words.as_str());
        let error = ConfigError::new(ConfigErrorKind::KeyWords);

        Self::validate(has_marker(to_match.as_slice()), error)
    }

    /// A GPU assignment may be written in three forms.  It is accepted when
    /// it has exactly one of them, and turned down when it has none or more
    /// than one.
    pub fn validate_gpu(config: &GaussConfig) -> (res: Result<(), ConfigError>)
        requires
            config.gpu is Some,
        ensures
            res is Ok <==> gpu_shape(config.gpu->0@),
            res matches Err(e) ==> e@ == ConfigErrorKind::GPU,
    {
        let to_match = chars_of(config.gpu.as_ref().unwrap().as_str());
        let mut matches: u8 = 0;
        if has_gpu_list(to_match.as_slice()) {
            matches += 1;
        }
        if has_gpu_range(to_match.as_slice()) {
            matches += 1;
        }
        if has_gpu_pair(to_match.as_slice()) {
            matches += 1;
        }
        assert(matches == gpu_forms(to_match@));
        if matches == 0 || matches > 1 {
            return Err(ConfigError::new(ConfigErrorKind::GPU));
        } else {
            Ok(())
        }
    }

    /// Turns the outcome of a match into a result: `error` unless the field
    /// matched.
    pub fn validate(matched: bool, error: ConfigError) -> (res: Result<(), ConfigError>)
        ensures
            matched ==> res is Ok,
            !matched ==> res == Err::<(), ConfigError>(error),
    {
        if !matched {
            return Err(error);
        }
        Ok(())
    }
}

} // verus!
