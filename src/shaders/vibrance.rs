use vstd::prelude::*;
use vstd::string::StringExecFns;

use super::shader::{fill_template, template_filled, RenderError, Shader};
use crate::utils::{clamp_spec, decimal, decimal_text, digit_char, digits, int_in_range};

verus! {

/// Saturation-adjustment program; `{strength}` takes the strength as a
/// fixed-point number with two decimals.
pub const VIBRANCE_SHADER: &'static str = "
precision highp float;
varying vec2 v_texcoord;
uniform sampler2D tex;

const vec3 VIB_RGB_BALANCE = vec3(1.0, 1.0, 1.0);
const float VIB_VIBRANCE = {strength};

const vec3 VIB_coeffVibrance = VIB_RGB_BALANCE * -VIB_VIBRANCE;

void main() {{
    vec4 pixColor = texture2D(tex, v_texcoord);
    vec3 color = vec3(pixColor[0], pixColor[1], pixColor[2]);

    vec3 VIB_coefLuma = vec3(0.212656, 0.715158, 0.072186); // try both and see which one looks nicer.

    float luma = dot(VIB_coefLuma, color);

    float max_color = max(color[0], max(color[1], color[2]));
    float min_color = min(color[0], min(color[1], color[2]));

    float color_saturation = max_color - min_color;

    vec3 p_col = vec3(vec3(vec3(vec3(sign(VIB_coeffVibrance) * color_saturation) - 1.0) * VIB_coeffVibrance) + 1.0);

    pixColor[0] = mix(luma, color[0], p_col[0]);
    pixColor[1] = mix(luma, color[1], p_col[1]);
    pixColor[2] = mix(luma, color[2], p_col[2]);

    gl_FragColor = pixColor;
}}
";

/// The template variable that receives the strength.
pub const STRENGTH_KEY: &'static str = "strength";

/// Identity prefix of vibrance shaders.
pub const VIBRANCE_PREFIX: &'static str = "vibrance_";

/// Smallest effective strength.
pub const MIN_STRENGTH: i32 = 1;

/// Largest effective strength.
pub const MAX_STRENGTH: i32 = 1000;

/// A per-window saturation rule: regular expressions on the window's class
/// and title, and a strength in hundredths.
#[derive(Clone, Debug)]
pub struct VibranceShader {
    pub window_class: String,
    pub window_title: String,
    pub strength: i32,
}

/// What the regex crate answers when `text` is searched for `pattern`:
/// whether it matches, or `None` where the pattern does not compile.
pub uninterp spec fn regex_verdict(pattern: Seq<char>, text: Seq<char>) -> Option<bool>;

/// Relies on `regex::Regex::new` (fails on a malformed pattern) and
/// `Regex::is_match` (the pattern matches somewhere in `text`).
#[verifier::external_body]
pub(crate) fn regex_search(pattern: &str, text: &str) -> (r: Option<bool>)
    ensures
        r == regex_verdict(pattern@, text@),
{
    match regex::Regex::new(pattern) {
        Ok(re) => Some(re.is_match(text)),
        Err(_) => None,
    }
}

/// `pattern` compiles and matches `text`.
pub open spec fn pattern_hit(pattern: Seq<char>, text: Seq<char>) -> bool {
    regex_verdict(pattern, text) == Some(true)
}

/// How the two pattern results decide a match: both configured patterns
/// must hit; one configured pattern decides alone; none never matches.
pub open spec fn combined(
    class_configured: bool,
    title_configured: bool,
    class_hit: bool,
    title_hit: bool,
) -> bool {
    if class_configured && title_configured {
        class_hit && title_hit
    } else if class_configured {
        class_hit
    } else if title_configured {
        title_hit
    } else {
        false
    }
}

/// Combines the per-pattern results of a vibrance rule into its verdict.
pub fn combine_pattern_results(
    class_configured: bool,
    title_configured: bool,
    class_hit: bool,
    title_hit: bool,
) -> (r: bool)
    ensures
        r == combined(class_configured, title_configured, class_hit, title_hit),
{
    if class_configured && title_configured {
        class_hit && title_hit
    } else if class_configured {
        class_hit
    } else if title_configured {
        title_hit
    } else {
        false
    }
}

/// An observed window value; a missing one reads as the empty string.
pub open spec fn observed(v: Option<String>) -> Seq<char> {
    match v {
        Some(s) => s@,
        None => Seq::empty(),
    }
}

/// `n` hundredths written as a fixed-point number with two decimals.
pub open spec fn hundredths(n: nat) -> Seq<char> {
    digits(n / 100) + seq!['.', digit_char(((n % 100) / 10) as int), digit_char((n % 10) as int)]
}

fn hundredths_text(n: i32) -> (r: String)
    requires
        n >= 0,
    ensures
        r@ == hundredths(n as nat),
{
    proof {
        reveal_strlit(".");
    }
    let whole = decimal_text(n / 100);
    let tens = decimal_text((n % 100) / 10);
    let ones = decimal_text(n % 10);
    assert(digits((n / 100) as nat) == decimal((n / 100) as int));
    assert(tens@ == seq![digit_char(((n % 100) / 10) as int)]);
    assert(ones@ == seq![digit_char((n % 10) as int)]);
    let mut s = whole;
    s.append(".");
    s.append(tens.as_str());
    s.append(ones.as_str());
    assert(s@ =~= hundredths(n as nat));
    s
}

impl VibranceShader {
    pub open spec fn matches_spec(&self, class: Seq<char>, title: Seq<char>) -> bool {
        combined(
            self.window_class@.len() > 0,
            self.window_title@.len() > 0,
            pattern_hit(self.window_class@, class),
            pattern_hit(self.window_title@, title),
        )
    }

    pub open spec fn strength_text(&self) -> Seq<char> {
        hundredths(self.strength as nat)
    }
}

/// A vibrance rule; the strength is clamped into `[1, 1000]`.
pub fn new(window_class: String, window_title: String, strength: i32) -> (r: VibranceShader)
    ensures
        r.window_class == window_class,
        r.window_title == window_title,
        r.strength == clamp_spec(strength as int, MIN_STRENGTH as int, MAX_STRENGTH as int),
        r.wf(),
{
    VibranceShader {
        window_class,
        window_title,
        strength: int_in_range(strength, MIN_STRENGTH, MAX_STRENGTH),
    }
}

/// Two vibrance rules with the same effective strength share one identity,
/// `vibrance_<strength>`, whatever their patterns.
pub proof fn lemma_identity_by_strength(a: VibranceShader, b: VibranceShader)
    requires
        a.strength == b.strength,
    ensures
        a.identity() == b.identity(),
        a.identity() == VIBRANCE_PREFIX@ + decimal(a.strength as int),
{
}

/// Clamping at construction: strengths up to 1 give 1, from 1000 on give
/// 1000, and those between are kept.
pub proof fn lemma_strength_clamp(strength: i32)
    ensures
        strength <= 1 ==> clamp_spec(strength as int, MIN_STRENGTH as int, MAX_STRENGTH as int)
            == 1,
        strength >= 1000 ==> clamp_spec(strength as int, MIN_STRENGTH as int, MAX_STRENGTH as int)
            == 1000,
        1 <= strength <= 1000 ==> clamp_spec(
            strength as int,
            MIN_STRENGTH as int,
            MAX_STRENGTH as int,
        ) == strength,
{
}

/// The matching policy: a rule with only a class pattern decides on the
/// class alone, one with only a title pattern on the title alone, one with
/// both needs both, and one with neither never matches.
pub proof fn lemma_matching_policy(v: VibranceShader, class: Seq<char>, title: Seq<char>)
    ensures
        v.window_class@.len() > 0 && v.window_title@.len() == 0 ==> (v.matches_spec(class, title)
            <==> pattern_hit(v.window_class@, class)),
        v.window_class@.len() == 0 && v.window_title@.len() > 0 ==> (v.matches_spec(class, title)
            <==> pattern_hit(v.window_title@, title)),
        v.window_class@.len() > 0 && v.window_title@.len() > 0 ==> (v.matches_spec(class, title)
            <==> pattern_hit(v.window_class@, class) && pattern_hit(v.window_title@, title)),
        v.window_class@.len() == 0 && v.window_title@.len() == 0 ==> !v.matches_spec(
            class,
            title,
        ),
{
}

impl Shader for VibranceShader {
    open spec fn wf(&self) -> bool {
        MIN_STRENGTH <= self.strength <= MAX_STRENGTH
    }

    open spec fn identity(&self) -> Seq<char> {
        VIBRANCE_PREFIX@ + decimal(self.strength as int)
    }

    open spec fn program(&self) -> Option<Seq<char>> {
        template_filled(VIBRANCE_SHADER@, STRENGTH_KEY@, self.strength_text())
    }

    /// Whether the rule matches the window; a missing value reads as empty.
    fn should_apply(&self, window_class: Option<String>, window_title: Option<String>) -> (r:
        bool)
        ensures
            r == self.matches_spec(observed(window_class), observed(window_title)),
    {
        let class = match window_class {
            Some(s) => s,
            None => String::new(),
        };
        let title = match window_title {
            Some(s) => s,
            None => String::new(),
        };
        let class_configured = !self.window_class.as_str().is_empty();
        let title_configured = !self.window_title.as_str().is_empty();
        let mut class_hit = false;
        let mut title_hit = false;
        if class_configured {
            class_hit = match regex_search(self.window_class.as_str(), class.as_str()) {
                Some(b) => b,
                None => false,
            };
        }
        if title_configured {
            title_hit = match regex_search(self.window_title.as_str(), title.as_str()) {
                Some(b) => b,
                None => false,
            };
        }
        combine_pattern_results(class_configured, title_configured, class_hit, title_hit)
    }

    fn get(&self) -> (r: Result<String, RenderError>) {
        let value = hundredths_text(self.strength);
        match fill_template(VIBRANCE_SHADER, STRENGTH_KEY, value.as_str()) {
            Some(s) => Ok(s),
            None => Err(RenderError::Template),
        }
    }

    fn hash(&self) -> (r: String) {
        let mut s = String::from_str(VIBRANCE_PREFIX);
        let d = decimal_text(self.strength);
        s.append(d.as_str());
        s
    }
}

} // verus!
