//! The two phases of loading: what to acquire, and how the acquired
//! artifacts become a pipeline.

use vstd::prelude::*;
use candle_core::Device;
use tokenizers::Tokenizer;
use crate::config::{BasicConfig, Config, GemmaSpecificConfig};
use crate::error::{DownloadError, LoadError, VariantIssue};
use crate::paths::{AdapterBundle, AdapterOrdering, GemmaModelPaths, LoraConfig, XLoraConfig};
use crate::pipeline::{GemmaPipeline, LoadedModel, Model};
use crate::template::ChatTemplate;
use crate::tensor::{device_is_cuda, is_cuda};

verus! {

/// The kind of model a loader is asked for.
#[derive(Clone, Copy, Debug, PartialEq, Eq, Structural)]
pub enum ModelKind {
    Normal,
    XLoraNormal,
    QuantizedGGUF,
    QuantizedGGML,
    XLoraGGUF,
    XLoraGGML,
}

impl ModelKind {
    /// The kinds that name a quantized weight format.
    pub open spec fn is_quantized(self) -> bool {
        !(self is Normal) && !(self is XLoraNormal)
    }

    /// Whether the kind asks for the adapter-augmented variant. The
    /// quantized kinds ask for no variant that is ever built.
    pub open spec fn spec_requests_adapters(self) -> bool {
        self is XLoraNormal
    }

    /// Whether the kind asks for the adapter-augmented variant.
    #[verifier::when_used_as_spec(spec_requests_adapters)]
    pub fn requests_adapters(self) -> (r: bool)
        ensures
            r == self.spec_requests_adapters(),
    {
        match self {
            ModelKind::XLoraNormal => true,
            _ => false,
        }
    }
}

/// Element types of the tensor library.
#[derive(Clone, Copy, Debug, PartialEq, Eq, Structural)]
pub enum DType {
    U8,
    U32,
    I64,
    BF16,
    F16,
    F32,
    F64,
}

/// The precision a model computes in: the caller's choice where there is
/// one, else reduced precision on an accelerator and full precision elsewhere.
pub open spec fn chosen_dtype(requested: Option<DType>, on_accelerator: bool) -> DType {
    match requested {
        Some(dtype) => dtype,
        None => if on_accelerator {
            DType::BF16
        } else {
            DType::F32
        },
    }
}

/// One artifact to acquire.
#[derive(Clone, Copy, Debug, PartialEq, Eq, Structural)]
pub enum Fetch {
    Tokenizer,
    Config,
    Weights,
    Adapters,
    Template,
}

/// What the first phase of a load has to do.
pub struct DownloadPlan {
    /// The revision to read the model at.
    pub revision: String,
    /// A local tokenizer file that stands in for the model's own.
    pub tokenizer_override: Option<String>,
    /// The artifacts to acquire, in this order. The first failure ends the
    /// acquisition.
    pub fetches: Vec<Fetch>,
}

/// What an adapter-augmented model is built from beyond its weight view.
pub struct AdapterPlan<'a, P> {
    /// The adapter weight files, in the adapters' order.
    pub adapter_files: Vec<&'a P>,
    /// Each adapter's name and configuration.
    pub adapter_configs: &'a Vec<(String, LoraConfig)>,
    /// The classifier's configuration.
    pub classifier_config: &'a XLoraConfig,
    /// The ordering descriptor shared by the adapters.
    pub ordering: &'a AdapterOrdering,
}

/// What is to be loaded for a model, and how.
pub struct ModelPlan<'a, P> {
    /// The hyperparameters.
    pub config: Config,
    /// The precision to compute in.
    pub dtype: DType,
    /// The files of the weight view that the model is built on, in order.
    pub weight_files: Vec<&'a P>,
    /// The adapter artifacts; there for an adapter-augmented model only.
    pub adapters: Option<AdapterPlan<'a, P>>,
}

impl<'a, P> AdapterPlan<'a, P> {
    /// The plan holds the adapter artifacts of the given paths.
    pub open spec fn is_taken_from(&self, paths: &GemmaModelPaths<P>) -> bool {
        &&& paths.has_adapters()
        &&& referents(self.adapter_files@) == GemmaLoader::adapter_weight_files(paths, true)
        &&& *self.adapter_configs == paths.xlora_adapter_configs->0
        &&& *self.classifier_config == paths.classifier_config->0
        &&& *self.ordering == paths.xlora_ordering->0
    }
}

/// Loads one Gemma model: first its artifacts, then the pipeline.
pub struct GemmaLoader {
    pub model_id: String,
    pub config: GemmaSpecificConfig,
    pub quantized_model_id: Option<String>,
    pub quantized_filename: Option<String>,
    pub xlora_model_id: Option<String>,
    pub kind: ModelKind,
    pub xlora_order: Option<AdapterOrdering>,
    pub no_kv_cache: bool,
    pub chat_template: Option<String>,
    pub tokenizer_json: Option<String>,
}

/// A copy of an optional text.
fn copy_text(text: &Option<String>) -> (copy: Option<String>)
    ensures
        copy == *text,
{
    match text {
        Some(s) => Some(s.clone()),
        None => None,
    }
}

impl Fetch {
    /// The name under which the artifact store keeps a single-file artifact.
    /// Weights and adapters are sets of files and have no such name.
    pub open spec fn spec_remote_name(self) -> Option<Seq<char>> {
        match self {
            Fetch::Tokenizer => Some("tokenizer.json"@),
            Fetch::Config => Some("config.json"@),
            Fetch::Template => Some("tokenizer_config.json"@),
            Fetch::Weights => None,
            Fetch::Adapters => None,
        }
    }

    /// The name under which the artifact store keeps a single-file artifact.
    pub fn remote_name(self) -> (name: Option<&'static str>)
        ensures
            name is Some <==> self.spec_remote_name() is Some,
            name matches Some(n) ==> Some(n@) == self.spec_remote_name(),
    {
        match self {
            Fetch::Tokenizer => Some("tokenizer.json"),
            Fetch::Config => Some("config.json"),
            Fetch::Template => Some("tokenizer_config.json"),
            Fetch::Weights => None,
            Fetch::Adapters => None,
        }
    }
}

impl GemmaLoader {
    pub fn new(
        model_id: String,
        config: GemmaSpecificConfig,
        quantized_model_id: Option<String>,
        quantized_filename: Option<String>,
        xlora_model_id: Option<String>,
        kind: ModelKind,
        xlora_order: Option<AdapterOrdering>,
        no_kv_cache: bool,
        chat_template: Option<String>,
        tokenizer_json: Option<String>,
    ) -> (loader: Self)
        ensures
            loader.model_id == model_id,
            loader.config == config,
            loader.quantized_model_id == quantized_model_id,
            loader.quantized_filename == quantized_filename,
            loader.xlora_model_id == xlora_model_id,
            loader.kind == kind,
            loader.xlora_order == xlora_order,
            loader.no_kv_cache == no_kv_cache,
            loader.chat_template == chat_template,
            loader.tokenizer_json == tokenizer_json,
    {
        Self {
            model_id,
            config,
            quantized_model_id,
            quantized_filename,
            xlora_model_id,
            kind,
            xlora_order,
            no_kv_cache,
            chat_template,
            tokenizer_json,
        }
    }

    /// The artifacts that a load acquires, in order: the tokenizer unless a
    /// local file stands in for it, the configuration, the weights, the
    /// adapter artifacts where the requested kind is adapter-augmented, the
    /// chat template.
    pub open spec fn fetch_order(&self) -> Seq<Fetch> {
        let tokenizer = if self.tokenizer_json is None {
            seq![Fetch::Tokenizer]
        } else {
            Seq::<Fetch>::empty()
        };
        let adapters = if self.kind.spec_requests_adapters() {
            seq![Fetch::Adapters]
        } else {
            Seq::<Fetch>::empty()
        };
        tokenizer + seq![Fetch::Config, Fetch::Weights] + adapters + seq![Fetch::Template]
    }

    /// Plans the acquisition of the model's artifacts at a revision, `main`
    /// where none is given.
    pub fn download_plan(&self, revision: Option<String>) -> (plan: DownloadPlan)
        ensures
            plan.revision@ == match revision {
                Some(r) => r@,
                None => "main"@,
            },
            plan.tokenizer_override == self.tokenizer_json,
            plan.fetches@ == self.fetch_order(),
    {
        let revision = match revision {
            Some(r) => r,
            None => "main".to_owned(),
        };
        let mut fetches: Vec<Fetch> = Vec::new();
        if self.tokenizer_json.is_none() {
            fetches.push(Fetch::Tokenizer);
        }
        fetches.push(Fetch::Config);
        fetches.push(Fetch::Weights);
        if self.kind.requests_adapters() {
            fetches.push(Fetch::Adapters);
        }
        fetches.push(Fetch::Template);
        assert(fetches@ =~= self.fetch_order());
        DownloadPlan { revision, tokenizer_override: copy_text(&self.tokenizer_json), fetches }
    }

    /// Puts the acquired artifacts of the model together.
    ///
    /// The result holds the adapter artifacts exactly where the requested
    /// kind is adapter-augmented: a bundle that was not asked for is left
    /// out, and a bundle that was asked for and is not there is reported as
    /// not found.
    pub fn download_model<P>(
        &self,
        tokenizer_filename: P,
        config_filename: P,
        template_filename: P,
        filenames: Vec<P>,
        adapters: Option<AdapterBundle<P>>,
    ) -> (r: Result<GemmaModelPaths<P>, DownloadError>)
        ensures
            match r {
                Ok(paths) => {
                    &&& self.kind.spec_requests_adapters() ==> adapters is Some
                    &&& paths.well_formed()
                    &&& paths.has_adapters() <==> self.kind.spec_requests_adapters()
                    &&& paths.tokenizer_filename == tokenizer_filename
                    &&& paths.config_filename == config_filename
                    &&& paths.template_filename == template_filename
                    &&& paths.filenames == filenames
                    &&& paths.has_adapters() ==> paths.holds_bundle(adapters->0)
                },
                Err(e) => {
                    &&& self.kind.spec_requests_adapters()
                    &&& adapters is None
                    &&& e == DownloadError::NotFound
                },
            },
    {
        if self.kind.requests_adapters() {
            if adapters.is_none() {
                return Err(DownloadError::NotFound);
            }
            Ok(
                GemmaModelPaths::new(
                    tokenizer_filename,
                    config_filename,
                    template_filename,
                    filenames,
                    adapters,
                ),
            )
        } else {
            Ok(
                GemmaModelPaths::new(
                    tokenizer_filename,
                    config_filename,
                    template_filename,
                    filenames,
                    None,
                ),
            )
        }
    }

    /// Which variant the loader builds from the given artifacts, or why it
    /// builds none: a quantized kind is never built, and an adapter-augmented
    /// model needs every adapter artifact. A base model needs none of them.
    pub open spec fn variant(&self, adapters_complete: bool) -> Result<bool, VariantIssue> {
        match self.kind {
            ModelKind::Normal => Ok(false),
            ModelKind::XLoraNormal => if adapters_complete {
                Ok(true)
            } else {
                Err(VariantIssue::MissingAdapters)
            },
            _ => Err(VariantIssue::QuantizedFormat),
        }
    }

    /// Decides the variant for the given artifacts: `Ok(true)` for an
    /// adapter-augmented model, `Ok(false)` for a base model.
    pub fn choose_variant<P>(&self, paths: &GemmaModelPaths<P>) -> (r: Result<bool, VariantIssue>)
        ensures
            r == self.variant(paths.has_adapters()),
    {
        match self.kind {
            ModelKind::Normal => Ok(false),
            ModelKind::XLoraNormal => if paths.adapters_complete() {
                Ok(true)
            } else {
                Err(VariantIssue::MissingAdapters)
            },
            _ => Err(VariantIssue::QuantizedFormat),
        }
    }

    /// The files that make up the weight view of the model: the weight
    /// shards in order, followed by the classifier's weights where the model
    /// is adapter-augmented.
    pub open spec fn weight_view_files<P>(paths: &GemmaModelPaths<P>, augmented: bool) -> Seq<P> {
        if augmented && paths.classifier_path is Some {
            paths.filenames@.push(paths.classifier_path->0)
        } else {
            paths.filenames@
        }
    }

    /// The adapter weight files in the adapters' order; none for a base
    /// model.
    pub open spec fn adapter_weight_files<P>(paths: &GemmaModelPaths<P>, augmented: bool) -> Seq<
        P,
    > {
        if augmented && paths.xlora_adapter_filenames is Some {
            paths.xlora_adapter_filenames->0@.map_values(|entry: (String, P)| entry.1)
        } else {
            Seq::<P>::empty()
        }
    }

    /// The first half of building a pipeline: decides what is to be loaded.
    ///
    /// A raw configuration that could not be read is reported first, then a
    /// variant that cannot be built. Otherwise the plan holds the normalized
    /// configuration, the precision, the files of the weight view and, for an
    /// adapter-augmented model, the adapter artifacts.
    pub fn plan_model<'a, P>(
        &self,
        paths: &'a GemmaModelPaths<P>,
        raw: Result<BasicConfig, String>,
        dtype: Option<DType>,
        device: &Device,
    ) -> (r: Result<ModelPlan<'a, P>, LoadError>)
        ensures
            match r {
                Ok(plan) => {
                    &&& raw matches Ok(basic) && plan.config == basic.normalized()
                    &&& self.variant(paths.has_adapters()) == Ok::<bool, VariantIssue>(
                        plan.adapters is Some,
                    )
                    &&& plan.dtype == chosen_dtype(dtype, device_is_cuda(*device))
                    &&& referents(plan.weight_files@) == Self::weight_view_files(
                        paths,
                        plan.adapters is Some,
                    )
                    &&& plan.adapters matches Some(adapters) ==> adapters.is_taken_from(paths)
                },
                Err(e) => match raw {
                    Err(message) => e == LoadError::ConfigParse(message),
                    Ok(_) => self.variant(paths.has_adapters()) matches Err(issue) && e
                        == LoadError::UnsupportedVariant(issue),
                },
            },
    {
        let basic = match raw {
            Ok(basic) => basic,
            Err(message) => {
                return Err(LoadError::ConfigParse(message));
            },
        };
        let config = basic.normalize();
        let default_dtype = if is_cuda(device) {
            DType::BF16
        } else {
            DType::F32
        };
        let dtype = match dtype {
            Some(requested) => requested,
            None => default_dtype,
        };
        let augmented = match self.choose_variant(paths) {
            Ok(augmented) => augmented,
            Err(issue) => {
                return Err(LoadError::UnsupportedVariant(issue));
            },
        };
        let mut weight_files: Vec<&'a P> = Vec::new();
        let mut i: usize = 0;
        while i < paths.filenames.len()
            invariant
                i <= paths.filenames@.len(),
                weight_files@.len() == i,
                forall|j: int| 0 <= j < i ==> *weight_files@[j] == paths.filenames@[j],
            decreases paths.filenames@.len() - i,
        {
            weight_files.push(&paths.filenames[i]);
            i += 1;
        }
        assert(referents(weight_files@) =~= paths.filenames@);
        if !augmented {
            return Ok(ModelPlan { config, dtype, weight_files, adapters: None });
        }
        let classifier = paths.classifier_path.as_ref().unwrap();
        weight_files.push(classifier);
        assert(referents(weight_files@) =~= paths.filenames@.push(*classifier));
        let adapters = paths.xlora_adapter_filenames.as_ref().unwrap();
        let mut adapter_files: Vec<&'a P> = Vec::new();
        let mut k: usize = 0;
        while k < adapters.len()
            invariant
                k <= adapters@.len(),
                adapter_files@.len() == k,
                forall|j: int| 0 <= j < k ==> *adapter_files@[j] == adapters@[j].1,
            decreases adapters@.len() - k,
        {
            adapter_files.push(&adapters[k].1);
            k += 1;
        }
        assert(referents(adapter_files@) =~= adapters@.map_values(
            |entry: (String, P)| entry.1,
        ));
        let plan = AdapterPlan {
            adapter_files,
            adapter_configs: paths.xlora_adapter_configs.as_ref().unwrap(),
            classifier_config: paths.classifier_config.as_ref().unwrap(),
            ordering: paths.xlora_ordering.as_ref().unwrap(),
        };
        Ok(ModelPlan { config, dtype, weight_files, adapters: Some(plan) })
    }

    /// The pipeline that a load ends in, given the chosen variant, the
    /// constructed model, the tokenizer and the chat template as read.
    pub open spec fn pipeline_of(
        &self,
        augmented: bool,
        model: LoadedModel,
        tokenizer: Tokenizer,
        template: ChatTemplate,
        pipeline: GemmaPipeline,
    ) -> bool {
        &&& pipeline.spec_model() == if augmented {
            Model::XLoraNormal(model)
        } else {
            Model::Normal(model)
        }
        &&& pipeline.spec_tokenizer() == tokenizer
        &&& pipeline.spec_config() == self.config
        &&& pipeline.spec_no_kv_cache() == self.no_kv_cache
        &&& pipeline.spec_chat_template().eos_token == template.eos_token
        &&& pipeline.spec_chat_template().chat_template == template.resolved_source(
            self.chat_template,
        )
    }

    /// The second half of building a pipeline, given the outcomes of
    /// constructing the model, loading the tokenizer and reading the chat
    /// template.
    ///
    /// A variant that cannot be built is reported first, then a model that
    /// failed to load, then a tokenizer that failed to load, then a chat
    /// template that could not be read. Otherwise the pipeline holds the
    /// model under the requested variant.
    pub fn assemble<P>(
        &self,
        paths: &GemmaModelPaths<P>,
        model: Result<LoadedModel, String>,
        tokenizer: Result<Tokenizer, String>,
        template: Result<ChatTemplate, String>,
    ) -> (r: Result<GemmaPipeline, LoadError>)
        ensures
            match r {
                Ok(pipeline) => {
                    &&& self.variant(paths.has_adapters()) matches Ok(augmented)
                    &&& model matches Ok(loaded)
                    &&& tokenizer matches Ok(t)
                    &&& template matches Ok(read)
                    &&& self.pipeline_of(augmented, loaded, t, read, pipeline)
                    &&& pipeline.spec_is_xlora() == (self.kind is XLoraNormal)
                },
                Err(e) => match self.variant(paths.has_adapters()) {
                    Err(issue) => e == LoadError::UnsupportedVariant(issue),
                    Ok(_) => match model {
                        Err(message) => e == LoadError::WeightLoad(message),
                        Ok(_) => match tokenizer {
                            Err(message) => e == LoadError::TokenizerLoad(message),
                            Ok(_) => template matches Err(message) && e == LoadError::ConfigParse(
                                message,
                            ),
                        },
                    },
                },
            },
    {
        let augmented = match self.choose_variant(paths) {
            Ok(augmented) => augmented,
            Err(issue) => {
                return Err(LoadError::UnsupportedVariant(issue));
            },
        };
        let loaded = match model {
            Ok(loaded) => loaded,
            Err(message) => {
                return Err(LoadError::WeightLoad(message));
            },
        };
        let tokenizer = match tokenizer {
            Ok(t) => t,
            Err(message) => {
                return Err(LoadError::TokenizerLoad(message));
            },
        };
        let template = match template {
            Ok(read) => read,
            Err(message) => {
                return Err(LoadError::ConfigParse(message));
            },
        };
        let model = if augmented {
            Model::XLoraNormal(loaded)
        } else {
            Model::Normal(loaded)
        };
        Ok(
            GemmaPipeline::new(
                model,
                tokenizer,
                self.config,
                self.no_kv_cache,
                template.resolve(copy_text(&self.chat_template)),
            ),
        )
    }
}

/// The values that a list of references points at.
pub open spec fn referents<P>(refs: Seq<&P>) -> Seq<P> {
    refs.map_values(|p: &P| *p)
}

} // verus!
