//! The job configuration and the interface to Gaussian16 built on it.

use crate::decimal::{decimal_i64, decimal_u64};
use crate::error::ConfigError;
use crate::layout::{
    cpu_layout, gpu_layout, lemma_cpu_layout_text, lemma_gpu_layout_text, rendered,
};
use crate::validate::{acceptable, first_violation, Validator};
use vstd::prelude::*;

verus! {

/// A job configuration as it comes from its source, unchecked.
///
/// A typical input file, without the molecular coordinates that follow it:
///
/// ```text
/// %Mem=134GB
/// %Cpu=0-39
/// %Check=test.chk
/// #p BP86/Def2svp/W06 SCF=XQC
///
///  title card
///
/// 0 1
/// ```
#[derive(Debug)]
pub struct GaussConfig {
    pub mem: String,
    pub cpu: String,
    pub gpu: Option<String>,
    pub checkpoint: String,
    pub key_words: String,
    pub title: String,
    pub charge: i64,
    pub multiplicity: u64,
}

/// A job configuration as plain values: texts as character sequences,
/// numbers as integers.
pub struct ConfigView {
    pub mem: Seq<char>,
    pub cpu: Seq<char>,
    pub gpu: Option<Seq<char>>,
    pub checkpoint: Seq<char>,
    pub key_words: Seq<char>,
    pub title: Seq<char>,
    pub charge: int,
    pub multiplicity: nat,
}

impl View for GaussConfig {
    type V = ConfigView;

    open spec fn view(&self) -> ConfigView {
        ConfigView {
            mem: self.mem@,
            cpu: self.cpu@,
            gpu: match self.gpu {
                Some(gpu) => Some(gpu@),
                None => None,
            },
            checkpoint: self.checkpoint@,
            key_words: self.key_words@,
            title: self.title@,
            charge: self.charge as int,
            multiplicity: self.multiplicity as nat,
        }
    }
}

impl Clone for GaussConfig {
    fn clone(&self) -> (copy: GaussConfig)
        ensures
            copy@ == self@,
    {
        GaussConfig {
            mem: self.mem.clone(),
            cpu: self.cpu.clone(),
            gpu: match &self.gpu {
                Some(gpu) => Some(gpu.clone()),
                None => None,
            },
            checkpoint: self.checkpoint.clone(),
            key_words: self.key_words.clone(),
            title: self.title.clone(),
            charge: self.charge,
            multiplicity: self.multiplicity,
        }
    }
}

/// Interface to the Gaussian16 quantum chemistry package.
///
/// A `Gaussian` holds a job configuration that has passed validation, and
/// there is no other way to come by one: whatever is rendered was checked.
/// Each job has its own configuration, so several `Gaussian` values may
/// stand side by side to draw different results from Gaussian16.
#[derive(Debug)]
pub struct Gaussian {
    config: GaussConfig,
}

impl View for Gaussian {
    type V = ConfigView;

    closed spec fn view(&self) -> ConfigView {
        self.config@
    }
}

impl Clone for Gaussian {
    fn clone(&self) -> (copy: Gaussian)
        ensures
            copy@ == self@,
    {
        proof {
            use_type_invariant(self);
        }
        Gaussian { config: self.config.clone() }
    }
}

impl Gaussian {
    // Only a configuration with nothing wrong is ever held.
    #[verifier::type_invariant]
    spec fn checked(&self) -> bool {
        acceptable(self.config@)
    }

    /// Takes a job configuration and validates it.  Returns the interface
    /// for that job, or the first field at fault.
    pub fn new(config: GaussConfig) -> (res: Result<Gaussian, ConfigError>)
        ensures
            first_violation(config@) is None ==> (res matches Ok(job) && job@ == config@),
            first_violation(config@) matches Some(kind) ==> (res matches Err(e) && e@ == kind),
    {
        let config = Gaussian::parse_config(config)?;
        Ok(Gaussian { config })
    }

    /// The configuration of this job.  It has nothing wrong with it.
    pub fn config(&self) -> (config: &GaussConfig)
        ensures
            config@ == self@,
            acceptable(config@),
    {
        proof {
            use_type_invariant(self);
        }
        &self.config
    }

    /// Generates the input for Gaussian16, as the bytes of an input file.
    ///
    /// The molecular coordinates are not part of it: coordinates, and
    /// anything further such as ModRedundant input, are to be written after
    /// these bytes.
    pub fn gen_input(self) -> (bytes: Vec<u8>)
        ensures
            bytes@ == vstd::utf8::encode_utf8(rendered(self@)),
    {
        self.display().as_str().as_bytes_vec()
    }

    // Validates a configuration and hands it on unchanged.
    fn parse_config(config: GaussConfig) -> (res: Result<GaussConfig, ConfigError>)
        ensures
            first_violation(config@) is None ==> res == Ok::<GaussConfig, ConfigError>(config),
            first_violation(config@) matches Some(kind) ==> (res matches Err(e) && e@ == kind),
    {
        Validator::validate_config(&config)?;
        Ok(config)
    }

    /// The header of the input file.  Gaussian16 may be run with GPUs: where
    /// the configuration assigns some, the header has a line for them.
    pub fn display(&self) -> (out: String)
        ensures
            out@ == rendered(self@),
    {
        match &self.config.gpu {
            Some(gpu) => self.gpu_output(gpu.clone()),
            None => self.cpu_output(),
        }
    }

    /// The header of a job that uses the GPUs `gpu`.
    pub fn gpu_output(&self, gpu: String) -> (out: String)
        ensures
            out@ == gpu_layout(self@, gpu@),
    {
        let mut out = String::from_str("%Mem=");
        out.append(self.config.mem.as_str());
        out.append("\n%Cpu=");
        out.append(self.config.cpu.as_str());
        out.append("\n%Gpu=");
        out.append(gpu.as_str());
        out.append("\n%Check=");
        out.append(self.config.checkpoint.as_str());
        out.append("\n");
        out.append(self.config.key_words.as_str());
        out.append("\n\n ");
        out.append(self.config.title.as_str());
        out.append("\n\n");
        out.append(decimal_i64(self.config.charge).as_str());
        out.append(" ");
        out.append(decimal_u64(self.config.multiplicity).as_str());
        proof {
            lemma_gpu_layout_text(self@, gpu@);
        }
        out
    }

    /// The header of a job that runs on processors alone.
    pub fn cpu_output(&self) -> (out: String)
        ensures
            out@ == cpu_layout(self@),
    {
        let mut out = String::from_str("%Mem=");
        out.append(self.config.mem.as_str());
        out.append("\n%Cpu=");
        out.append(self.config.cpu.as_str());
        out.append("\n%Check=");
        out.append(self.config.checkpoint.as_str());
        out.append("\n");
        out.append(self.config.key_words.as_str());
        out.append("\n\n ");
        out.append(self.config.title.as_str());
        out.append("\n\n");
        out.append(decimal_i64(self.config.charge).as_str());
        out.append(" ");
        out.append(decimal_u64(self.config.multiplicity).as_str());
        proof {
            lemma_cpu_layout_text(self@);
        }
        out
    }
}

} // verus!
