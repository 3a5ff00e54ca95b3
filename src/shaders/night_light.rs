use vstd::prelude::*;
use vstd::string::StringExecFns;

use super::shader::{fill_template, template_filled, RenderError, Shader};
use crate::utils::{decimal, decimal_text, Time, TimeOfDay};

verus! {

/// Colour-temperature program; `{temperature}` takes the temperature in
/// Kelvin.
pub const NIGHT_LIGHT_SHADER: &'static str = "
precision highp float;
varying vec2 v_texcoord;
uniform sampler2D tex;

const float temperature = {temperature}.0;
const float temperatureStrength = 1.0;

#define WithQuickAndDirtyLuminancePreservation
const float LuminancePreservationFactor = 1.0;

// function from https://www.shadertoy.com/view/4sc3D7
// valid from 1000 to 40000 K (and additionally 0 for pure full white)
vec3 colorTemperatureToRGB(const in float temperature) {{
    // values from: http://blenderartists.org/forum/showthread.php?270332-OSL-Goodness&p=2268693&viewfull=1#post2268693
    mat3 m = (temperature <= 6500.0) ? mat3(vec3(0.0, -2902.1955373783176, -8257.7997278925690),
                                            vec3(0.0, 1669.5803561666639, 2575.2827530017594),
                                            vec3(1.0, 1.3302673723350029, 1.8993753891711275))
                                     : mat3(vec3(1745.0425298314172, 1216.6168361476490, -8257.7997278925690),
                                            vec3(-2666.3474220535695, -2173.1012343082230, 2575.2827530017594),
                                            vec3(0.55995389139931482, 0.70381203140554553, 1.8993753891711275));
    return mix(clamp(vec3(m[0] / (vec3(clamp(temperature, 1000.0, 40000.0)) + m[1]) + m[2]), vec3(0.0), vec3(1.0)),
               vec3(1.0), smoothstep(1000.0, 0.0, temperature));
}}
void main() {{
    vec4 pixColor = texture2D(tex, v_texcoord);
    // RGB
    vec3 color = vec3(pixColor[0], pixColor[1], pixColor[2]);
#ifdef WithQuickAndDirtyLuminancePreservation
    color *= mix(1.0, dot(color, vec3(0.2126, 0.7152, 0.0722)) / max(dot(color, vec3(0.2126, 0.7152, 0.0722)), 1e-5),
                 LuminancePreservationFactor);
#endif
    color = mix(color, color * colorTemperatureToRGB(temperature), temperatureStrength);
    vec4 outCol = vec4(color, pixColor[3]);
    gl_FragColor = outCol;
}}
";

/// The template variable that receives the temperature.
pub const TEMPERATURE_KEY: &'static str = "temperature";

/// Identity prefix of night-light shaders.
pub const NIGHT_PREFIX: &'static str = "night_";

/// The night-light rule: a colour temperature applied during a daily window
/// of time, whatever window has focus.
#[derive(Clone, Copy, Debug, PartialEq, Eq, Structural)]
pub struct NightLightShader {
    pub enabled: bool,
    pub start_time: TimeOfDay,
    pub end_time: TimeOfDay,
    pub temperature: i32,
    pub time_impl: Time,
}

/// Whether `now` lies in the daily window from `start` to `end`, both ends
/// included; a window whose start comes after its end crosses midnight.
pub open spec fn in_window(start: TimeOfDay, end: TimeOfDay, now: TimeOfDay) -> bool {
    if start.minutes() <= end.minutes() {
        start.minutes() <= now.minutes() && now.minutes() <= end.minutes()
    } else {
        now.minutes() >= start.minutes() || now.minutes() <= end.minutes()
    }
}

impl NightLightShader {
    /// The rule applies at time `now`.
    pub open spec fn applies_at(&self, now: TimeOfDay) -> bool {
        self.enabled && in_window(self.start_time, self.end_time, now)
    }

    /// Whether the rule applies at `now`.
    pub fn should_apply_at(&self, now: TimeOfDay) -> (r: bool)
        ensures
            r == self.applies_at(now),
            !self.enabled ==> !r,
            self.enabled && self.start_time.minutes() <= self.end_time.minutes() ==> (r <==> (
            self.start_time.minutes() <= now.minutes() && now.minutes()
                <= self.end_time.minutes())),
            self.enabled && self.start_time.minutes() > self.end_time.minutes() ==> (r <==> (
            now.minutes() >= self.start_time.minutes() || now.minutes()
                <= self.end_time.minutes())),
    {
        if !self.enabled {
            return false;
        }
        let s = self.start_time.minute_of_day;
        let e = self.end_time.minute_of_day;
        let n = now.minute_of_day;
        if s <= e {
            s <= n && n <= e
        } else {
            n >= s || n <= e
        }
    }

    /// The time of day that this rule consults.
    pub fn current_time(&self) -> (r: TimeOfDay)
        ensures
            self.time_impl.mock_time matches Some(p) ==> r == p,
            self.time_impl.mock_time is None ==> r.wf(),
    {
        self.time_impl.now()
    }
}

/// A night-light rule; `mock_time`, when given, stands in for the clock.
pub fn new(
    enabled: bool,
    start_time: TimeOfDay,
    end_time: TimeOfDay,
    temperature: i32,
    mock_time: Option<TimeOfDay>,
) -> (r: NightLightShader)
    ensures
        r.enabled == enabled,
        r.start_time == start_time,
        r.end_time == end_time,
        r.temperature == temperature,
        r.time_impl.mock_time == mock_time,
{
    NightLightShader { enabled, start_time, end_time, temperature, time_impl: Time::new(mock_time) }
}

/// A disabled night-light rule applies at no time.
pub proof fn lemma_disabled_never_applies(shader: NightLightShader, now: TimeOfDay)
    requires
        !shader.enabled,
    ensures
        !shader.applies_at(now),
{
}

/// With `start <= end` the rule applies exactly on the closed interval.
pub proof fn lemma_daytime_window(shader: NightLightShader, now: TimeOfDay)
    requires
        shader.enabled,
        shader.start_time.minutes() <= shader.end_time.minutes(),
    ensures
        shader.applies_at(now) <==> shader.start_time.minutes() <= now.minutes()
            <= shader.end_time.minutes(),
{
}

/// With `start > end` the rule applies from the start to midnight and from
/// midnight to the end, both boundaries included.
pub proof fn lemma_overnight_window(shader: NightLightShader, now: TimeOfDay)
    requires
        shader.enabled,
        shader.start_time.minutes() > shader.end_time.minutes(),
    ensures
        shader.applies_at(now) <==> (now.minutes() >= shader.start_time.minutes()
            || now.minutes() <= shader.end_time.minutes()),
        now == shader.start_time ==> shader.applies_at(now),
        now == shader.end_time ==> shader.applies_at(now),
{
}

/// Night-light identities are `night_<temperature>`: rules with the same
/// temperature share one, whatever their schedule.
pub proof fn lemma_identity_by_temperature(a: NightLightShader, b: NightLightShader)
    requires
        a.temperature == b.temperature,
    ensures
        a.identity() == b.identity(),
        a.identity() == NIGHT_PREFIX@ + decimal(a.temperature as int),
{
}

impl Shader for NightLightShader {
    open spec fn wf(&self) -> bool {
        true
    }

    open spec fn identity(&self) -> Seq<char> {
        NIGHT_PREFIX@ + decimal(self.temperature as int)
    }

    open spec fn program(&self) -> Option<Seq<char>> {
        template_filled(NIGHT_LIGHT_SHADER@, TEMPERATURE_KEY@, decimal(self.temperature as int))
    }

    /// Whether the rule applies now; the window is not consulted.
    fn should_apply(&self, window_class: Option<String>, window_title: Option<String>) -> (r:
        bool)
        ensures
            self.time_impl.mock_time matches Some(p) ==> r == self.applies_at(p),
            exists|t: TimeOfDay| r == self.applies_at(t),
            r ==> self.enabled,
    {
        let now = self.current_time();
        self.should_apply_at(now)
    }

    fn get(&self) -> (r: Result<String, RenderError>) {
        let value = decimal_text(self.temperature);
        match fill_template(NIGHT_LIGHT_SHADER, TEMPERATURE_KEY, value.as_str()) {
            Some(s) => Ok(s),
            None => Err(RenderError::Template),
        }
    }

    fn hash(&self) -> (r: String) {
        let mut s = String::from_str(NIGHT_PREFIX);
        let d = decimal_text(self.temperature);
        s.append(d.as_str());
        s
    }
}

} // verus!
