//! The artifacts of one model on local disk.

use vstd::prelude::*;

verus! {

/// A low-rank adapter's configuration, held as the text of its document.
#[derive(Clone, Debug, PartialEq, Eq)]
pub struct LoraConfig {
    pub document: String,
}

/// The adapter classifier's configuration, held as the text of its document.
#[derive(Clone, Debug, PartialEq, Eq)]
pub struct XLoraConfig {
    pub document: String,
}

/// The descriptor that fixes the order of adapters and layers, held as the
/// text of its document.
#[derive(Clone, Debug, PartialEq, Eq)]
pub struct AdapterOrdering {
    pub document: String,
}

/// Everything an adapter-augmented model needs beyond the base model.
pub struct AdapterBundle<P> {
    /// Each adapter's name and weight file.
    pub adapter_filenames: Vec<(String, P)>,
    /// Each adapter's name and configuration.
    pub adapter_configs: Vec<(String, LoraConfig)>,
    /// The classifier's weight file.
    pub classifier_path: P,
    /// The classifier's configuration.
    pub classifier_config: XLoraConfig,
    /// The ordering descriptor shared by the adapters.
    pub ordering: AdapterOrdering,
}

/// The files of one model: tokenizer, configuration, chat template, weight
/// shards in order, and the adapter artifacts where there are any.
pub struct GemmaModelPaths<P> {
    pub tokenizer_filename: P,
    pub config_filename: P,
    pub template_filename: P,
    pub filenames: Vec<P>,
    pub xlora_adapter_filenames: Option<Vec<(String, P)>>,
    pub xlora_adapter_configs: Option<Vec<(String, LoraConfig)>>,
    pub classifier_path: Option<P>,
    pub classifier_config: Option<XLoraConfig>,
    pub xlora_ordering: Option<AdapterOrdering>,
}

impl<P> GemmaModelPaths<P> {
    /// All five adapter artifacts are there.
    pub open spec fn has_adapters(&self) -> bool {
        &&& self.xlora_adapter_filenames is Some
        &&& self.xlora_adapter_configs is Some
        &&& self.classifier_path is Some
        &&& self.classifier_config is Some
        &&& self.xlora_ordering is Some
    }

    /// None of the five adapter artifacts is there.
    pub open spec fn lacks_adapters(&self) -> bool {
        &&& self.xlora_adapter_filenames is None
        &&& self.xlora_adapter_configs is None
        &&& self.classifier_path is None
        &&& self.classifier_config is None
        &&& self.xlora_ordering is None
    }

    /// The adapter artifacts are those of the bundle.
    pub open spec fn holds_bundle(&self, bundle: AdapterBundle<P>) -> bool {
        &&& self.xlora_adapter_filenames == Some(bundle.adapter_filenames)
        &&& self.xlora_adapter_configs == Some(bundle.adapter_configs)
        &&& self.classifier_path == Some(bundle.classifier_path)
        &&& self.classifier_config == Some(bundle.classifier_config)
        &&& self.xlora_ordering == Some(bundle.ordering)
    }

    /// The adapter artifacts are present together or absent together.
    pub open spec fn well_formed(&self) -> bool {
        self.has_adapters() || self.lacks_adapters()
    }

    /// Puts the artifacts of one model together. The adapter artifacts come
    /// as one bundle, so the result has all of them or none.
    pub fn new(
        tokenizer_filename: P,
        config_filename: P,
        template_filename: P,
        filenames: Vec<P>,
        adapters: Option<AdapterBundle<P>>,
    ) -> (paths: Self)
        ensures
            paths.well_formed(),
            paths.has_adapters() <==> adapters is Some,
            paths.tokenizer_filename == tokenizer_filename,
            paths.config_filename == config_filename,
            paths.template_filename == template_filename,
            paths.filenames == filenames,
            adapters matches Some(bundle) ==> paths.holds_bundle(bundle),
    {
        match adapters {
            Some(bundle) => GemmaModelPaths {
                tokenizer_filename,
                config_filename,
                template_filename,
                filenames,
                xlora_adapter_filenames: Some(bundle.adapter_filenames),
                xlora_adapter_configs: Some(bundle.adapter_configs),
                classifier_path: Some(bundle.classifier_path),
                classifier_config: Some(bundle.classifier_config),
                xlora_ordering: Some(bundle.ordering),
            },
            None => GemmaModelPaths {
                tokenizer_filename,
                config_filename,
                template_filename,
                filenames,
                xlora_adapter_filenames: None,
                xlora_adapter_configs: None,
                classifier_path: None,
                classifier_config: None,
                xlora_ordering: None,
            },
        }
    }

    /// Whether all five adapter artifacts are there.
    pub fn adapters_complete(&self) -> (complete: bool)
        ensures
            complete == self.has_adapters(),
    {
        self.xlora_adapter_filenames.is_some() && self.xlora_adapter_configs.is_some()
            && self.classifier_path.is_some() && self.classifier_config.is_some()
            && self.xlora_ordering.is_some()
    }

    pub fn get_config_filename(&self) -> (file: &P)
        ensures
            *file == self.config_filename,
    {
        &self.config_filename
    }

    pub fn get_tokenizer_filename(&self) -> (file: &P)
        ensures
            *file == self.tokenizer_filename,
    {
        &self.tokenizer_filename
    }

    pub fn get_weight_filenames(&self) -> (files: &Vec<P>)
        ensures
            *files == self.filenames,
    {
        &self.filenames
    }

    pub fn get_adapter_filenames(&self) -> (files: &Option<Vec<(String, P)>>)
        ensures
            *files == self.xlora_adapter_filenames,
    {
        &self.xlora_adapter_filenames
    }

    pub fn get_adapter_configs(&self) -> (configs: &Option<Vec<(String, LoraConfig)>>)
        ensures
            *configs == self.xlora_adapter_configs,
    {
        &self.xlora_adapter_configs
    }

    pub fn get_classifier_config(&self) -> (config: &Option<XLoraConfig>)
        ensures
            *config == self.classifier_config,
    {
        &self.classifier_config
    }

    pub fn get_classifier_path(&self) -> (file: &Option<P>)
        ensures
            *file == self.classifier_path,
    {
        &self.classifier_path
    }

    pub fn get_ordering(&self) -> (ordering: &Option<AdapterOrdering>)
        ensures
            *ordering == self.xlora_ordering,
    {
        &self.xlora_ordering
    }

    pub fn get_template_filename(&self) -> (file: &P)
        ensures
            *file == self.template_filename,
    {
        &self.template_filename
    }
}

} // verus!
