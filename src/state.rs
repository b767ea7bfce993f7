//! The configuration, the parameters bound into its templates, and the
//! generated text it keeps.
use vstd::prelude::*;

use crate::choice::{BuildType, Platform, PublishingFormat, Sdk};
use crate::variant::{
    code_variant_of, info_variant_of, resolve_code, resolve_info, CodeVariant, InfoVariant,
};

verus! {

/// The optional inputs of a workflow.
#[derive(Debug)]
pub struct CustomInputs {
    pub build_variant_name: Option<String>,
    pub build_variant_path: Option<String>,
    pub publishing_format: PublishingFormat,
    pub show_versions: bool,
}

/// A user's choice, and the text last generated from it.
#[derive(Debug)]
pub struct State {
    pub platform: Platform,
    pub sdk: Sdk,
    pub build_type: BuildType,
    pub custom_inputs: CustomInputs,
    pub code_template: Option<String>,
    pub info_template: Option<String>,
}

/// The parameters bound into a workflow template.
#[derive(Debug)]
pub struct CodeRender {
    pub variant: CodeVariant,
    pub title: &'static str,
    pub publishing_format: PublishingFormat,
    pub show_versions: bool,
    /// Present exactly when the variant takes this parameter.
    pub build_variant_name: Option<String>,
    pub build_variant_path: String,
}

/// The content of [`CodeRender`], as contracts speak of it.
pub struct CodeRenderView {
    pub variant: CodeVariant,
    pub title: Seq<char>,
    pub publishing_format: PublishingFormat,
    pub show_versions: bool,
    pub build_variant_name: Option<Seq<char>>,
    pub build_variant_path: Seq<char>,
}

impl View for CodeRender {
    type V = CodeRenderView;

    open spec fn view(&self) -> CodeRenderView {
        CodeRenderView {
            variant: self.variant,
            title: self.title@,
            publishing_format: self.publishing_format,
            show_versions: self.show_versions,
            build_variant_name: match self.build_variant_name {
                Some(n) => Some(n@),
                None => None,
            },
            build_variant_path: self.build_variant_path@,
        }
    }
}

/// The parameters bound into an info template.
#[derive(Debug)]
pub struct InfoRender {
    pub variant: InfoVariant,
    pub show_versions: bool,
}

/// The content of [`InfoRender`], as contracts speak of it.
pub struct InfoRenderView {
    pub variant: InfoVariant,
    pub show_versions: bool,
}

impl View for InfoRender {
    type V = InfoRenderView;

    open spec fn view(&self) -> InfoRenderView {
        InfoRenderView { variant: self.variant, show_versions: self.show_versions }
    }
}

/// An optional input as a template sees it: absent reads as empty.
pub open spec fn or_empty(o: Option<String>) -> Seq<char> {
    match o {
        Some(s) => s@,
        None => Seq::empty(),
    }
}

/// The workflow parameters that a configuration binds.
pub open spec fn code_request(s: State) -> CodeRenderView {
    let variant = code_variant_of(s.platform, s.sdk, s.build_type);
    CodeRenderView {
        variant,
        title: variant.spec_title(),
        publishing_format: s.custom_inputs.publishing_format,
        show_versions: s.custom_inputs.show_versions,
        build_variant_name: if variant.spec_takes_variant_name() {
            Some(or_empty(s.custom_inputs.build_variant_name))
        } else {
            None
        },
        build_variant_path: or_empty(s.custom_inputs.build_variant_path),
    }
}

/// The info parameters that a configuration binds, if its combination has an
/// info template.
pub open spec fn info_request(s: State) -> Option<InfoRenderView> {
    match info_variant_of(s.platform, s.sdk, s.build_type) {
        Some(variant) => Some(InfoRenderView { variant, show_versions: s.custom_inputs.show_versions }),
        None => None,
    }
}

/// `text` is what `render` returned for some parameters whose content is `request`.
pub open spec fn rendered_from<A: View, F: Fn(A) -> String>(render: F, request: A::V, text: String) -> bool {
    exists|a: A| a@ == request && #[trigger] render.ensures((a,), text)
}

/// A renderer whose text depends on the content of its parameters alone.
pub open spec fn is_pure_renderer<A: View, F: Fn(A) -> String>(render: F) -> bool {
    forall|a: A, b: A, x: String, y: String|
        a@ == b@ && #[trigger] render.ensures((a,), x) && #[trigger] render.ensures((b,), y)
            ==> x@ == y@
}

/// The two states hold the same choice.
pub open spec fn same_choice(a: State, b: State) -> bool {
    &&& a.platform == b.platform
    &&& a.sdk == b.sdk
    &&& a.build_type == b.build_type
    &&& a.custom_inputs == b.custom_inputs
}

/// `after` is `before` with its text generated afresh by the two renderers:
/// the choice is kept, the workflow text is rendered from the workflow
/// parameters, and the info text is rendered from the info parameters when
/// the combination has an info template and is absent otherwise.
pub open spec fn generated<C: Fn(CodeRender) -> String, I: Fn(InfoRender) -> String>(
    before: State,
    after: State,
    render_code: C,
    render_info: I,
) -> bool {
    &&& same_choice(after, before)
    &&& after.code_template is Some
    &&& rendered_from(render_code, code_request(before), after.code_template->Some_0)
    &&& match info_request(before) {
        Some(request) => {
            &&& after.info_template is Some
            &&& rendered_from(render_info, request, after.info_template->Some_0)
        },
        None => after.info_template is None,
    }
}

fn string_or_empty(o: &Option<String>) -> (r: String)
    ensures
        r@ == or_empty(*o),
{
    match o {
        Some(s) => s.clone(),
        None => String::new(),
    }
}

impl State {
    /// Drops the generated text: the workflow text becomes empty and the info
    /// text absent. The choice is kept.
    pub fn clear_text(&mut self)
        ensures
            same_choice(*final(self), *old(self)),
            final(self).code_template is Some,
            final(self).code_template->Some_0@ == Seq::<char>::empty(),
            final(self).info_template is None,
    {
        self.info_template = None;
        self.code_template = Some(String::new());
    }

    /// The workflow template and its parameters for this configuration.
    pub fn code_request(&self) -> (r: CodeRender)
        ensures
            r@ == code_request(*self),
    {
        let variant = resolve_code(self.platform, self.sdk, self.build_type);
        let build_variant_name = if variant.takes_variant_name() {
            Some(string_or_empty(&self.custom_inputs.build_variant_name))
        } else {
            None
        };
        CodeRender {
            variant,
            title: variant.title(),
            publishing_format: self.custom_inputs.publishing_format,
            show_versions: self.custom_inputs.show_versions,
            build_variant_name,
            build_variant_path: string_or_empty(&self.custom_inputs.build_variant_path),
        }
    }

    /// The info template and its parameters for this configuration, if its
    /// combination has one.
    pub fn info_request(&self) -> (r: Option<InfoRender>)
        ensures
            r.is_some() == info_request(*self).is_some(),
            r.is_some() ==> r->Some_0@ == info_request(*self)->Some_0,
    {
        match resolve_info(self.platform, self.sdk, self.build_type) {
            Some(variant) => Some(InfoRender { variant, show_versions: self.custom_inputs.show_versions }),
            None => None,
        }
    }

    /// Generates the workflow text and the info text for the current choice,
    /// replacing the text generated before.
    pub fn gen_templates<C, I>(&mut self, render_code: C, render_info: I)
        where
            C: Fn(CodeRender) -> String,
            I: Fn(InfoRender) -> String,
        requires
            forall|r: CodeRender| render_code.requires((r,)),
            forall|r: InfoRender| render_info.requires((r,)),
        ensures
            generated(*old(self), *final(self), render_code, render_info),
    {
        let code = self.code_request();
        let info = self.info_request();
        let code_text = render_code(code);
        let info_text = match info {
            Some(request) => Some(render_info(request)),
            None => None,
        };
        self.code_template = Some(code_text);
        self.info_template = info_text;
    }
}

} // verus!
