//! Generation and safety settings a caller attaches to a request.

use vstd::prelude::*;

verus! {

/// The harm categories the API lets a caller set a threshold for.
#[derive(Debug, Clone, Copy, PartialEq, Eq, Structural)]
pub enum HarmCategory {
    HarmCategoryHateSpeech,
    HarmCategorySexuallyExplicit,
    HarmCategoryDangerousContent,
    HarmCategoryHarassment,
}

/// How much probable harm it takes before content is blocked.
#[derive(Debug, Clone, Copy, PartialEq, Eq, Structural)]
pub enum HarmBlockThreshold {
    HarmBlockThresholdUnspecified,
    BlockLowAndAbove,
    BlockMediumAndAbove,
    BlockOnlyHigh,
    BlockNone,
}

/// One category paired with its blocking threshold.
#[derive(Debug, Clone, Copy, PartialEq, Eq, Structural)]
pub struct SafetySetting {
    pub category: HarmCategory,
    pub threshold: HarmBlockThreshold,
}

/// The four safety settings, one per category, all at the same
/// threshold.
pub open spec fn spec_all_categories(threshold: HarmBlockThreshold) -> Seq<SafetySetting> {
    seq![
        SafetySetting { category: HarmCategory::HarmCategoryHateSpeech, threshold },
        SafetySetting { category: HarmCategory::HarmCategorySexuallyExplicit, threshold },
        SafetySetting { category: HarmCategory::HarmCategoryDangerousContent, threshold },
        SafetySetting { category: HarmCategory::HarmCategoryHarassment, threshold },
    ]
}

/// Tuning knobs for generation. The sampling temperature and the
/// nucleus-sampling bound are carried in thousandths, so that `1000`
/// stands for a value of one on the wire.
#[derive(Debug, Clone)]
pub struct GenerationConfig {
    pub stop_sequences: Option<Vec<String>>,
    pub response_mime_type: Option<String>,
    pub max_output_tokens: Option<u32>,
    pub temperature_milli: Option<u32>,
    pub top_p_milli: Option<u32>,
    pub top_k: Option<u32>,
}

/// The mathematical value of a [`GenerationConfig`].
#[verifier::ext_equal]
pub ghost struct GenerationConfigView {
    pub stop_sequences: Option<Seq<Seq<char>>>,
    pub response_mime_type: Option<Seq<char>>,
    pub max_output_tokens: Option<u32>,
    pub temperature_milli: Option<u32>,
    pub top_p_milli: Option<u32>,
    pub top_k: Option<u32>,
}

impl View for GenerationConfig {
    type V = GenerationConfigView;

    open spec fn view(&self) -> GenerationConfigView {
        GenerationConfigView {
            stop_sequences: match self.stop_sequences {
                Some(seqs) => Some(Seq::new(seqs@.len(), |i: int| seqs@[i]@)),
                None => None,
            },
            response_mime_type: match self.response_mime_type {
                Some(m) => Some(m@),
                None => None,
            },
            max_output_tokens: self.max_output_tokens,
            temperature_milli: self.temperature_milli,
            top_p_milli: self.top_p_milli,
            top_k: self.top_k,
        }
    }
}

/// A config with nothing set.
pub open spec fn spec_empty_config() -> GenerationConfigView {
    GenerationConfigView {
        stop_sequences: None,
        response_mime_type: None,
        max_output_tokens: None,
        temperature_milli: None,
        top_p_milli: None,
        top_k: None,
    }
}

/// What a caller has chosen to send along with the conversation.
#[derive(Debug, Clone)]
pub struct Settings {
    pub safety_settings: Option<Vec<SafetySetting>>,
    pub generation_config: Option<GenerationConfig>,
    pub system_instruction: Option<String>,
}

/// The mathematical value of a [`Settings`].
#[verifier::ext_equal]
pub ghost struct SettingsView {
    pub safety_settings: Option<Seq<SafetySetting>>,
    pub generation_config: Option<GenerationConfigView>,
    pub system_instruction: Option<Seq<char>>,
}

impl View for Settings {
    type V = SettingsView;

    open spec fn view(&self) -> SettingsView {
        SettingsView {
            safety_settings: match self.safety_settings {
                Some(v) => Some(v@),
                None => None,
            },
            generation_config: match self.generation_config {
                Some(c) => Some(c@),
                None => None,
            },
            system_instruction: match self.system_instruction {
                Some(s) => Some(s@),
                None => None,
            },
        }
    }
}

impl Settings {
    /// Settings with nothing chosen.
    pub fn new() -> (r: Self)
        ensures
            r@ == (SettingsView {
                safety_settings: None,
                generation_config: None,
                system_instruction: None,
            }),
    {
        Settings { safety_settings: None, generation_config: None, system_instruction: None }
    }

    /// Sets every harm category to the same threshold.
    pub fn set_all_safety_settings(&mut self, threshold: HarmBlockThreshold)
        ensures
            final(self)@ == (SettingsView {
                safety_settings: Some(spec_all_categories(threshold)),
                ..old(self)@
            }),
    {
        let settings = vec![
            SafetySetting { category: HarmCategory::HarmCategoryHateSpeech, threshold },
            SafetySetting { category: HarmCategory::HarmCategorySexuallyExplicit, threshold },
            SafetySetting { category: HarmCategory::HarmCategoryDangerousContent, threshold },
            SafetySetting { category: HarmCategory::HarmCategoryHarassment, threshold },
        ];
        proof {
            assert(settings@ =~= spec_all_categories(threshold));
        }
        self.safety_settings = Some(settings);
        proof {
            assert(self@ =~~= (SettingsView {
                safety_settings: Some(spec_all_categories(threshold)),
                ..old(self)@
            }));
        }
    }

    /// Replaces the whole generation config with the given knobs.
    pub fn set_advance_settings(
        &mut self,
        stop_sequences: Option<Vec<String>>,
        response_mime_type: Option<String>,
        max_output_tokens: Option<u32>,
        temperature_milli: Option<u32>,
        top_p_milli: Option<u32>,
        top_k: Option<u32>,
    )
        ensures
            final(self)@.safety_settings == old(self)@.safety_settings,
            final(self)@.system_instruction == old(self)@.system_instruction,
            final(self)@.generation_config matches Some(c) && c == (GenerationConfig {
                stop_sequences,
                response_mime_type,
                max_output_tokens,
                temperature_milli,
                top_p_milli,
                top_k,
            })@,
    {
        self.generation_config = Some(
            GenerationConfig {
                stop_sequences,
                response_mime_type,
                max_output_tokens,
                temperature_milli,
                top_p_milli,
                top_k,
            },
        );
    }

    /// Sets the sampling temperature, in thousandths, keeping the other
    /// knobs; starts from an empty config where none was set.
    pub fn set_temperature(&mut self, temperature_milli: u32)
        ensures
            final(self)@.safety_settings == old(self)@.safety_settings,
            final(self)@.system_instruction == old(self)@.system_instruction,
            final(self)@.generation_config matches Some(c) && c == (GenerationConfigView {
                temperature_milli: Some(temperature_milli),
                ..match old(self)@.generation_config {
                    Some(o) => o,
                    None => spec_empty_config(),
                }
            }),
    {
        match &mut self.generation_config {
            Some(config) => {
                config.temperature_milli = Some(temperature_milli);
            },
            None => {
                self.generation_config = Some(
                    GenerationConfig {
                        stop_sequences: None,
                        response_mime_type: None,
                        max_output_tokens: None,
                        temperature_milli: Some(temperature_milli),
                        top_p_milli: None,
                        top_k: None,
                    },
                );
            },
        }
        proof {
            assert(self@.generation_config matches Some(c) && c =~~= (GenerationConfigView {
                temperature_milli: Some(temperature_milli),
                ..match old(self)@.generation_config {
                    Some(o) => o,
                    None => spec_empty_config(),
                }
            }));
        }
    }

    /// Caps how many tokens a reply may use, keeping the other knobs;
    /// starts from an empty config where none was set.
    pub fn set_max_output_tokens(&mut self, max_output_tokens: u32)
        ensures
            final(self)@.safety_settings == old(self)@.safety_settings,
            final(self)@.system_instruction == old(self)@.system_instruction,
            final(self)@.generation_config matches Some(c) && c == (GenerationConfigView {
                max_output_tokens: Some(max_output_tokens),
                ..match old(self)@.generation_config {
                    Some(o) => o,
                    None => spec_empty_config(),
                }
            }),
    {
        match &mut self.generation_config {
            Some(config) => {
                config.max_output_tokens = Some(max_output_tokens);
            },
            None => {
                self.generation_config = Some(
                    GenerationConfig {
                        stop_sequences: None,
                        response_mime_type: None,
                        max_output_tokens: Some(max_output_tokens),
                        temperature_milli: None,
                        top_p_milli: None,
                        top_k: None,
                    },
                );
            },
        }
        proof {
            assert(self@.generation_config matches Some(c) && c =~~= (GenerationConfigView {
                max_output_tokens: Some(max_output_tokens),
                ..match old(self)@.generation_config {
                    Some(o) => o,
                    None => spec_empty_config(),
                }
            }));
        }
    }

    /// Sets the system instruction the model is to follow.
    pub fn set_system_instruction(&mut self, instruction: &str)
        ensures
            final(self)@ == (SettingsView {
                system_instruction: Some(instruction@),
                ..old(self)@
            }),
    {
        self.system_instruction = Some(instruction.to_owned());
        proof {
            assert(self@ =~~= (SettingsView {
                system_instruction: Some(instruction@),
                ..old(self)@
            }));
        }
    }
}

} // verus!
