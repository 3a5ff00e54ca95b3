use vstd::prelude::*;
use vstd::string::StringExecFns;

use crate::utils::{last_segment, shader_hash_from_path};

verus! {

/// The compositor keyword that names the active shader file.
pub const SHADER_KEY: &'static str = "decoration:screen_shader";

/// The keyword value that means "no shader".
pub const NO_SHADER: &'static str = "[[EMPTY]]";

/// Why a shader program could not be rendered.
#[derive(Clone, Copy, Debug, PartialEq, Eq, Structural)]
pub enum RenderError {
    /// The template refused the substitution.
    Template,
}

/// A colour-adjustment shader that may apply to the focused window.
pub trait Shader {
    /// The shader's fields satisfy its own invariant.
    spec fn wf(&self) -> bool;

    /// The identity string: the rule's kind and effective parameters.
    spec fn identity(&self) -> Seq<char>;

    /// The rendered program text, or `None` where the template refuses it.
    spec fn program(&self) -> Option<Seq<char>>;

    fn should_apply(&self, window_class: Option<String>, window_title: Option<String>) -> bool;

    fn get(&self) -> (r: Result<String, RenderError>)
        requires
            self.wf(),
        ensures
            r is Ok <==> self.program() is Some,
            r matches Ok(s) ==> self.program() == Some(s@),
    ;

    fn hash(&self) -> (r: String)
        ensures
            r@ == self.identity(),
    ;
}

/// The text that strfmt makes of `template` when `{key}` stands for `value`,
/// or `None` where strfmt returns an error.
pub uninterp spec fn template_filled(
    template: Seq<char>,
    key: Seq<char>,
    value: Seq<char>,
) -> Option<Seq<char>>;

/// Relies on `strfmt::strfmt` with the single variable `key` bound to `value`.
#[verifier::external_body]
pub(crate) fn fill_template(template: &str, key: &str, value: &str) -> (r: Option<String>)
    ensures
        r is Some <==> template_filled(template@, key@, value@) is Some,
        r matches Some(s) ==> template_filled(template@, key@, value@) == Some(s@),
{
    let mut vars = std::collections::HashMap::new();
    vars.insert(key.to_string(), value.to_string());
    strfmt::strfmt(template, &vars).ok()
}

/// The identity that a compositor keyword value names: `None` for the
/// "no shader" value, else the last segment of the shader file path.
pub open spec fn identity_of_keyword(value: Seq<char>) -> Option<Seq<char>> {
    if value == NO_SHADER@ {
        None
    } else {
        Some(last_segment(value))
    }
}

/// Reads the active shader's identity back from the keyword value.
pub fn identity_from_keyword(value: String) -> (r: Option<String>)
    ensures
        r is Some <==> identity_of_keyword(value@) is Some,
        r matches Some(s) ==> identity_of_keyword(value@) == Some(s@),
{
    let none = String::from_str(NO_SHADER);
    if value == none {
        None
    } else {
        shader_hash_from_path(value)
    }
}

} // verus!
