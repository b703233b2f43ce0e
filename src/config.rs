use vstd::prelude::*;
use crate::errors::VoxputError;
use crate::state::opt_string_view;

verus! {

/// Fully resolved runtime configuration.
#[derive(Debug, Clone)]
pub struct ResolvedConfig {
    /// Name of the environment variable that holds the API key.
    pub api_key_env: String,
    /// API key given directly (by the file or the environment).
    pub api_key: Option<String>,
    /// Transcription model name.
    pub model: Option<String>,
    /// Provider name.
    pub provider: String,
    /// Preferred audio input device name.
    pub device: Option<String>,
    /// Audio sample rate.
    pub sample_rate: u32,
    /// Default output target.
    pub output_target: String,
}

/// The configuration file's contents; every field may be left out.
#[derive(Debug, Clone)]
pub struct FileConfig {
    pub provider: Option<String>,
    pub providers: ProvidersConfig,
    pub audio: AudioConfig,
    pub output: OutputConfig,
}

#[derive(Debug, Clone)]
pub struct ProvidersConfig {
    pub groq: Option<GroqConfig>,
}

#[derive(Debug, Clone)]
pub struct GroqConfig {
    /// Name of the environment variable that holds the API key.
    pub api_key_env: Option<String>,
    /// API key written into the file.
    pub api_key: Option<String>,
    /// Model name.
    pub model: Option<String>,
}

#[derive(Debug, Clone)]
pub struct AudioConfig {
    /// Preferred input device name.
    pub device: Option<String>,
    /// Sample rate in Hz.
    pub sample_rate: Option<u32>,
}

#[derive(Debug, Clone)]
pub struct OutputConfig {
    /// Output target: `stdout`, `clipboard` or `both`.
    pub target: Option<String>,
}

/// `o`'s value where there is one, `base` otherwise.
pub open spec fn or_keep<T>(base: T, o: Option<T>) -> T {
    match o {
        Some(v) => v,
        None => base,
    }
}

/// `o` where it holds a non-empty text, `base` otherwise.
pub open spec fn nonempty_or_keep(base: Option<Seq<char>>, o: Option<Seq<char>>) -> Option<
    Seq<char>,
> {
    match o {
        Some(v) => if v.len() > 0 {
            Some(v)
        } else {
            base
        },
        None => base,
    }
}

pub open spec fn groq_api_key_env(f: FileConfig) -> Option<Seq<char>> {
    match f.providers.groq {
        Some(g) => opt_string_view(g.api_key_env),
        None => None,
    }
}

pub open spec fn groq_api_key(f: FileConfig) -> Option<Seq<char>> {
    match f.providers.groq {
        Some(g) => opt_string_view(g.api_key),
        None => None,
    }
}

pub open spec fn groq_model(f: FileConfig) -> Option<Seq<char>> {
    match f.providers.groq {
        Some(g) => opt_string_view(g.model),
        None => None,
    }
}

/// Where a resolved configuration agrees with `r` but for what the file `f`
/// overrides: each value the file gives replaces the resolved one, except an
/// empty API key, which is ignored.
pub open spec fn file_applied(r: ResolvedConfig, f: FileConfig, out: ResolvedConfig) -> bool {
    &&& out.provider@ == or_keep(r.provider@, opt_string_view(f.provider))
    &&& out.api_key_env@ == or_keep(r.api_key_env@, groq_api_key_env(f))
    &&& opt_string_view(out.api_key) == nonempty_or_keep(opt_string_view(r.api_key), groq_api_key(f))
    &&& opt_string_view(out.model) == match groq_model(f) {
        Some(m) => Some(m),
        None => opt_string_view(r.model),
    }
    &&& opt_string_view(out.device) == match opt_string_view(f.audio.device) {
        Some(d) => Some(d),
        None => opt_string_view(r.device),
    }
    &&& out.sample_rate == or_keep(r.sample_rate, f.audio.sample_rate)
    &&& out.output_target@ == or_keep(r.output_target@, opt_string_view(f.output.target))
}

impl Default for ResolvedConfig {
    /// Built-in defaults: the Groq provider, its key in `GROQ_API_KEY`,
    /// 16 kHz audio, output to stdout, nothing else set.
    fn default() -> (r: Self)
        ensures
            r.api_key_env@ == "GROQ_API_KEY"@,
            r.api_key is None,
            r.model is None,
            r.provider@ == "groq"@,
            r.device is None,
            r.sample_rate == 16000,
            r.output_target@ == "stdout"@,
    {
        ResolvedConfig {
            api_key_env: String::from_str("GROQ_API_KEY"),
            api_key: None,
            model: None,
            provider: String::from_str("groq"),
            device: None,
            sample_rate: 16000,
            output_target: String::from_str("stdout"),
        }
    }
}

impl ResolvedConfig {
    /// The API key: the one held, or else the value of the environment
    /// variable named by `api_key_env`, which the caller reads and passes as
    /// `env_value` (`None` when it is not set).
    pub fn api_key(&self, env_value: Option<String>) -> (r: Result<String, VoxputError>)
        ensures
            self.api_key matches Some(k) ==> r matches Ok(v) && v@ == k@,
            self.api_key is None ==> match env_value {
                Some(e) => r matches Ok(v) && v@ == e@,
                None => r matches Err(VoxputError::MissingApiKey { env_var }) && env_var@
                    == self.api_key_env@,
            },
    {
        match &self.api_key {
            Some(k) => Ok(k.clone()),
            None => match env_value {
                Some(v) => Ok(v),
                None => Err(VoxputError::MissingApiKey { env_var: self.api_key_env.clone() }),
            },
        }
    }

    /// Lets the environment override the key and the model; empty values
    /// are ignored.
    pub fn apply_env_overrides(&mut self, api_key: Option<String>, model: Option<String>)
        ensures
            opt_string_view(final(self).api_key) == nonempty_or_keep(
                opt_string_view(old(self).api_key),
                opt_string_view(api_key),
            ),
            opt_string_view(final(self).model) == nonempty_or_keep(
                opt_string_view(old(self).model),
                opt_string_view(model),
            ),
            final(self).api_key_env@ == old(self).api_key_env@,
            final(self).provider@ == old(self).provider@,
            opt_string_view(final(self).device) == opt_string_view(old(self).device),
            final(self).sample_rate == old(self).sample_rate,
            final(self).output_target@ == old(self).output_target@,
    {
        if let Some(k) = api_key {
            if !k.as_str().is_empty() {
                self.api_key = Some(k);
            }
        }
        if let Some(m) = model {
            if !m.as_str().is_empty() {
                self.model = Some(m);
            }
        }
    }
}

/// Lays the values that the configuration file gives over `r`.
pub fn apply_file_config(r: &mut ResolvedConfig, f: &FileConfig)
    ensures
        file_applied(*old(r), *f, *final(r)),
{
    if let Some(p) = &f.provider {
        r.provider = p.clone();
    }
    if let Some(groq) = &f.providers.groq {
        if let Some(env) = &groq.api_key_env {
            r.api_key_env = env.clone();
        }
        if let Some(key) = &groq.api_key {
            if !key.as_str().is_empty() {
                r.api_key = Some(key.clone());
            }
        }
        if let Some(model) = &groq.model {
            r.model = Some(model.clone());
        }
    }
    if let Some(dev) = &f.audio.device {
        r.device = Some(dev.clone());
    }
    if let Some(rate) = f.audio.sample_rate {
        r.sample_rate = rate;
    }
    if let Some(tgt) = &f.output.target {
        r.output_target = tgt.clone();
    }
}

} // verus!
