use vstd::prelude::*;

use crate::shaders::night_light::{self, NightLightShader};
use crate::shaders::shader::Shader;
use crate::shaders::vibrance::{self, regex_search, regex_verdict, VibranceShader};
use crate::utils::{clamp_spec, clock_of, parsed_clock, TimeOfDay};

verus! {

/// Temperature of the night light when the configuration names none.
pub const DEFAULT_TEMPERATURE: i32 = 3500;

/// The configuration document as read from disk.
#[derive(Clone, Debug)]
pub struct Config {
    pub night_light: NightLightConfig,
    pub vibrance_configs: Vec<VibranceConfig>,
    pub hot_reload: Option<bool>,
}

/// The night-light section; times are written `HH:MM`.
#[derive(Clone, Debug)]
pub struct NightLightConfig {
    pub enabled: bool,
    pub start_time: Option<String>,
    pub end_time: Option<String>,
    pub temperature: i32,
}

/// One vibrance entry: patterns on class and title, and a strength.
#[derive(Clone, Debug)]
pub struct VibranceConfig {
    pub window_class: String,
    pub window_title: String,
    pub strength: i32,
}

impl Default for Config {
    fn default() -> (r: Self)
        ensures
            !r.night_light.enabled,
            r.night_light.start_time is None,
            r.night_light.end_time is None,
            r.night_light.temperature == DEFAULT_TEMPERATURE,
            r.vibrance_configs@.len() == 0,
            r.hot_reload is None,
    {
        Config {
            night_light: NightLightConfig::default(),
            vibrance_configs: Vec::new(),
            hot_reload: None,
        }
    }
}

impl Default for NightLightConfig {
    fn default() -> (r: Self)
        ensures
            !r.enabled,
            r.start_time is None,
            r.end_time is None,
            r.temperature == DEFAULT_TEMPERATURE,
    {
        NightLightConfig {
            enabled: false,
            start_time: None,
            end_time: None,
            temperature: DEFAULT_TEMPERATURE,
        }
    }
}

impl Default for VibranceConfig {
    fn default() -> (r: Self)
        ensures
            r.window_class@.len() == 0,
            r.window_title@.len() == 0,
            r.strength == 0,
    {
        VibranceConfig { window_class: String::new(), window_title: String::new(), strength: 0 }
    }
}

/// Why a configuration cannot be turned into rules.
#[derive(Clone, Copy, Debug, PartialEq, Eq, Structural)]
pub enum ConfigError {
    /// A night-light time is not in the `HH:MM` form.
    InvalidTime,
    /// The night-light window starts where it ends.
    EmptyWindow,
    /// A configured vibrance pattern is not a valid regular expression.
    InvalidPattern,
}

/// The rules in force: an optional night-light rule, vibrance rules in
/// configured order, and whether the configuration is watched for changes.
#[derive(Debug)]
pub struct ConfigData {
    pub night_light_shader: Option<NightLightShader>,
    pub vibrance_shaders: Vec<VibranceShader>,
    pub hot_reload: bool,
}

impl View for VibranceShader {
    type V = (Seq<char>, Seq<char>, i32);

    open spec fn view(&self) -> (Seq<char>, Seq<char>, i32) {
        (self.window_class@, self.window_title@, self.strength)
    }
}

/// What a snapshot holds, with strings as character sequences.
pub struct ConfigDataView {
    pub night_light_shader: Option<NightLightShader>,
    pub vibrance_shaders: Seq<(Seq<char>, Seq<char>, i32)>,
    pub hot_reload: bool,
}

impl View for ConfigData {
    type V = ConfigDataView;

    open spec fn view(&self) -> ConfigDataView {
        ConfigDataView {
            night_light_shader: self.night_light_shader,
            vibrance_shaders: self.vibrance_shaders@.map_values(|v: VibranceShader| v@),
            hot_reload: self.hot_reload,
        }
    }
}

impl ConfigData {
    /// A snapshot with no rules, as an absent configuration gives.
    pub fn empty() -> (r: ConfigData)
        ensures
            r.night_light_shader is None,
            r.vibrance_shaders@.len() == 0,
            !r.hot_reload,
    {
        ConfigData { night_light_shader: None, vibrance_shaders: Vec::new(), hot_reload: false }
    }

    /// Holds a night-light rule and at least one vibrance rule.
    pub open spec fn is_complete(&self) -> bool {
        self.night_light_shader is Some && self.vibrance_shaders@.len() > 0
    }

    /// Every vibrance rule has its strength in range.
    pub open spec fn wf(&self) -> bool {
        forall|i: int|
            0 <= i < self.vibrance_shaders@.len() ==> #[trigger] self.vibrance_shaders@[i].wf()
    }

    /// Whether two snapshots hold the same rules.
    pub fn same_as(&self, other: &ConfigData) -> (r: bool)
        ensures
            r == (self@ == other@),
    {
        let a = &self.vibrance_shaders;
        let b = &other.vibrance_shaders;
        if self.night_light_shader != other.night_light_shader || self.hot_reload
            != other.hot_reload || a.len() != b.len() {
            proof {
                if self@ == other@ {
                    assert(self@.vibrance_shaders.len() == a@.len());
                    assert(other@.vibrance_shaders.len() == b@.len());
                }
            }
            return false;
        }
        let mut i: usize = 0;
        while i < a.len()
            invariant
                a == &self.vibrance_shaders,
                b == &other.vibrance_shaders,
                a@.len() == b@.len(),
                i <= a@.len(),
                forall|j: int| 0 <= j < i ==> a@[j]@ == b@[j]@,
            decreases a@.len() - i,
        {
            let x = &a[i];
            let y = &b[i];
            if x.window_class != y.window_class || x.window_title != y.window_title || x.strength
                != y.strength {
                proof {
                    if self@ == other@ {
                        assert(self@.vibrance_shaders[i as int] == a@[i as int]@);
                        assert(other@.vibrance_shaders[i as int] == b@[i as int]@);
                    }
                }
                return false;
            }
            i = i + 1;
        }
        assert(self@.vibrance_shaders =~= other@.vibrance_shaders);
        true
    }
}

/// A configured pattern that does not compile; the empty pattern is unset.
pub open spec fn pattern_invalid(p: Seq<char>) -> bool {
    p.len() > 0 && regex_verdict(p, Seq::empty()) is None
}

/// The vibrance rule that a vibrance entry gives.
pub open spec fn vibrance_rule_of(v: VibranceConfig) -> (Seq<char>, Seq<char>, i32) {
    (
        v.window_class@,
        v.window_title@,
        clamp_spec(v.strength as int, vibrance::MIN_STRENGTH as int, vibrance::MAX_STRENGTH as int)
            as i32,
    )
}

/// The outcome of reading the night-light section.
pub open spec fn night_rule_of(c: NightLightConfig) -> Result<
    Option<NightLightShader>,
    ConfigError,
> {
    match (c.start_time, c.end_time) {
        (Some(s), Some(e)) => match (clock_of(parsed_clock(s@)), clock_of(parsed_clock(e@))) {
            (Some(st), Some(et)) => if st == et {
                Err(ConfigError::EmptyWindow)
            } else {
                Ok(
                    Some(
                        NightLightShader {
                            enabled: c.enabled,
                            start_time: st,
                            end_time: et,
                            temperature: c.temperature,
                            time_impl: crate::utils::Time { mock_time: None },
                        },
                    ),
                )
            },
            _ => Err(ConfigError::InvalidTime),
        },
        _ => Ok(None),
    }
}

/// A vibrance entry holds a configured pattern that does not compile.
pub open spec fn entry_invalid(v: VibranceConfig) -> bool {
    pattern_invalid(v.window_class@) || pattern_invalid(v.window_title@)
}

/// Some vibrance entry holds a configured pattern that does not compile.
pub open spec fn any_pattern_invalid(vs: Seq<VibranceConfig>) -> bool {
    exists|i: int| 0 <= i < vs.len() && entry_invalid(#[trigger] vs[i])
}

fn pattern_is_invalid(p: &String) -> (r: bool)
    ensures
        r == pattern_invalid(p@),
{
    if p.as_str().is_empty() {
        false
    } else {
        let empty = String::new();
        regex_search(p.as_str(), empty.as_str()).is_none()
    }
}

fn night_rule(c: &NightLightConfig) -> (r: Result<Option<NightLightShader>, ConfigError>)
    ensures
        r == night_rule_of(*c),
{
    match (&c.start_time, &c.end_time) {
        (Some(s), Some(e)) => {
            let st = TimeOfDay::parse(s.as_str());
            let et = TimeOfDay::parse(e.as_str());
            match (st, et) {
                (Some(st), Some(et)) => {
                    if st == et {
                        Err(ConfigError::EmptyWindow)
                    } else {
                        Ok(Some(night_light::new(c.enabled, st, et, c.temperature, None)))
                    }
                },
                _ => Err(ConfigError::InvalidTime),
            }
        },
        _ => Ok(None),
    }
}

/// Turns a configuration into rules; `None` stands for an absent or empty
/// configuration file and gives no rules. Night-light errors come first,
/// then pattern errors.
pub fn load_config_and_shaders(cfg: Option<Config>) -> (r: Result<ConfigData, ConfigError>)
    ensures
        cfg is None ==> (r matches Ok(d) && d.night_light_shader is None
            && d.vibrance_shaders@.len() == 0 && !d.hot_reload),
        cfg matches Some(c) ==> match night_rule_of(c.night_light) {
            Err(e) => r == Err::<ConfigData, ConfigError>(e),
            Ok(n) => if any_pattern_invalid(c.vibrance_configs@) {
                r == Err::<ConfigData, ConfigError>(ConfigError::InvalidPattern)
            } else {
                (r matches Ok(d) && d.wf() && d.night_light_shader == n && d.hot_reload == (
                c.hot_reload == Some(true)) && d@.vibrance_shaders == c.vibrance_configs@.map_values(
                    |v: VibranceConfig| vibrance_rule_of(v),
                ))
            },
        },
{
    let c = match cfg {
        None => {
            return Ok(ConfigData::empty());
        },
        Some(c) => c,
    };
    let night = match night_rule(&c.night_light) {
        Err(e) => {
            return Err(e);
        },
        Ok(n) => n,
    };
    let vs = &c.vibrance_configs;
    let mut rules: Vec<VibranceShader> = Vec::new();
    let mut i: usize = 0;
    while i < vs.len()
        invariant
            cfg == Some(c),
            night_rule_of(c.night_light) == Ok::<Option<NightLightShader>, ConfigError>(night),
            vs == &c.vibrance_configs,
            i <= vs@.len(),
            rules@.len() == i,
            forall|j: int| 0 <= j < i ==> #[trigger] rules@[j].wf(),
            forall|j: int| 0 <= j < i ==> #[trigger] rules@[j]@ == vibrance_rule_of(vs@[j]),
            forall|j: int| 0 <= j < i ==> !entry_invalid(#[trigger] vs@[j]),
        decreases vs@.len() - i,
    {
        let v = &vs[i];
        if pattern_is_invalid(&v.window_class) || pattern_is_invalid(&v.window_title) {
            assert(any_pattern_invalid(c.vibrance_configs@)) by {
                assert(entry_invalid(vs@[i as int]));
            }
            return Err(ConfigError::InvalidPattern);
        }
        let rule = vibrance::new(v.window_class.clone(), v.window_title.clone(), v.strength);
        rules.push(rule);
        assert(!entry_invalid(vs@[i as int]));
        i = i + 1;
    }
    let hot_reload = match c.hot_reload {
        Some(b) => b,
        None => false,
    };
    let d = ConfigData { night_light_shader: night, vibrance_shaders: rules, hot_reload };
    assert(d@.vibrance_shaders =~= c.vibrance_configs@.map_values(
        |v: VibranceConfig| vibrance_rule_of(v),
    ));
    Ok(d)
}

} // verus!
