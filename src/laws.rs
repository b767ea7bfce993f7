//! Facts about resolution that relate several configurations or calls.
use vstd::prelude::*;

use crate::choice::{BuildType, Platform, PublishingFormat, Sdk};
use crate::state::{
    code_request, generated, info_request, is_pure_renderer, rendered_from, CodeRender,
    CodeRenderView, InfoRender, State,
};
use crate::variant::{code_variant_of, info_variant_of};

verus! {

/// Every combination of platform, SDK and build type has exactly one workflow
/// template, made for that very combination, and its title is not empty.
pub proof fn law_every_combination_has_a_workflow(platform: Platform, sdk: Sdk, build_type: BuildType)
    ensures
        code_variant_of(platform, sdk, build_type).platform() == platform,
        code_variant_of(platform, sdk, build_type).sdk() == sdk,
        code_variant_of(platform, sdk, build_type).build_type() == build_type,
        code_variant_of(platform, sdk, build_type).spec_title().len() > 0,
{
    reveal_strlit("Android release build");
    reveal_strlit("Flutter Android release build");
    reveal_strlit("React Native Android release build");
    reveal_strlit("Android debug build");
    reveal_strlit("Flutter Android debug build");
    reveal_strlit("React Native Android debug build");
}

/// Generating text always yields workflow text, rendered from the workflow
/// template of the chosen combination.
pub proof fn law_workflow_text_always_generated<C: Fn(CodeRender) -> String, I: Fn(InfoRender) -> String>(
    before: State,
    after: State,
    render_code: C,
    render_info: I,
)
    requires
        generated(before, after, render_code, render_info),
    ensures
        after.code_template is Some,
        code_request(before).variant == code_variant_of(before.platform, before.sdk, before.build_type),
        rendered_from(render_code, code_request(before), after.code_template->Some_0),
{
}

/// Each combination but an unsigned React Native build has an info template,
/// made for that combination; an unsigned React Native build has none.
pub proof fn law_info_only_absent_for_unsigned_react_native(
    platform: Platform,
    sdk: Sdk,
    build_type: BuildType,
)
    ensures
        info_variant_of(platform, sdk, build_type) is None <==> (sdk == Sdk::ReactNative
            && build_type == BuildType::Unsigned),
        info_variant_of(platform, sdk, build_type) matches Some(v) ==> v.platform() == platform
            && v.sdk() == sdk && v.build_type() == build_type,
{
}

/// After text is generated, the info text is absent exactly for an unsigned
/// React Native build.
pub proof fn law_info_text_absent_exactly_for_unsigned_react_native<
    C: Fn(CodeRender) -> String,
    I: Fn(InfoRender) -> String,
>(before: State, after: State, render_code: C, render_info: I)
    requires
        generated(before, after, render_code, render_info),
    ensures
        after.info_template is None <==> (before.sdk == Sdk::ReactNative && before.build_type
            == BuildType::Unsigned),
{
}

/// A pure renderer gives one text for one content of parameters.
pub proof fn law_pure_renderer_is_deterministic<A: View, F: Fn(A) -> String>(
    render: F,
    request: A::V,
    x: String,
    y: String,
)
    requires
        is_pure_renderer(render),
        rendered_from(render, request, x),
        rendered_from(render, request, y),
    ensures
        x@ == y@,
{
    let a = choose|a: A| a@ == request && #[trigger] render.ensures((a,), x);
    let b = choose|b: A| b@ == request && #[trigger] render.ensures((b,), y);
    assert(render.ensures((a,), x) && render.ensures((b,), y));
}

/// Generating text twice in a row, with pure renderers and no change of the
/// choice in between, gives the same workflow text and the same info text.
pub proof fn law_gen_templates_idempotent<C: Fn(CodeRender) -> String, I: Fn(InfoRender) -> String>(
    first_before: State,
    first_after: State,
    second_after: State,
    render_code: C,
    render_info: I,
)
    requires
        is_pure_renderer(render_code),
        is_pure_renderer(render_info),
        generated(first_before, first_after, render_code, render_info),
        generated(first_after, second_after, render_code, render_info),
    ensures
        second_after.code_template is Some,
        second_after.code_template->Some_0@ == first_after.code_template->Some_0@,
        second_after.info_template is Some <==> first_after.info_template is Some,
        second_after.info_template is Some ==> second_after.info_template->Some_0@
            == first_after.info_template->Some_0@,
{
    assert(code_request(first_after) == code_request(first_before));
    assert(info_request(first_after) == info_request(first_before));
    law_pure_renderer_is_deterministic(
        render_code,
        code_request(first_before),
        first_after.code_template->Some_0,
        second_after.code_template->Some_0,
    );
    if let Some(request) = info_request(first_before) {
        law_pure_renderer_is_deterministic(
            render_info,
            request,
            first_after.info_template->Some_0,
            second_after.info_template->Some_0,
        );
    }
}

/// An absent build variant name binds as the empty string: a configuration
/// without one gives the same parameters, and with a pure renderer the same
/// workflow text, as one whose name is empty.
pub proof fn law_absent_name_binds_as_empty<C: Fn(CodeRender) -> String, I: Fn(InfoRender) -> String>(
    absent: State,
    empty: State,
    absent_after: State,
    empty_after: State,
    render_code: C,
    render_info: I,
)
    requires
        absent.platform == empty.platform,
        absent.sdk == empty.sdk,
        absent.build_type == empty.build_type,
        absent.custom_inputs.build_variant_path == empty.custom_inputs.build_variant_path,
        absent.custom_inputs.publishing_format == empty.custom_inputs.publishing_format,
        absent.custom_inputs.show_versions == empty.custom_inputs.show_versions,
        absent.custom_inputs.build_variant_name is None,
        empty.custom_inputs.build_variant_name matches Some(n) && n@ == Seq::<char>::empty(),
        is_pure_renderer(render_code),
        generated(absent, absent_after, render_code, render_info),
        generated(empty, empty_after, render_code, render_info),
    ensures
        code_request(absent) == code_request(empty),
        absent_after.code_template->Some_0@ == empty_after.code_template->Some_0@,
{
    assert(code_request(absent) == code_request(empty));
    law_pure_renderer_is_deterministic(
        render_code,
        code_request(absent),
        absent_after.code_template->Some_0,
        empty_after.code_template->Some_0,
    );
}

/// Switching the publishing format from APK to AAB changes the workflow
/// parameters in the format alone, whose label differs, and leaves the info
/// parameters as they were.
pub proof fn law_format_changes_only_the_format(apk: State, aab: State)
    requires
        apk.platform == aab.platform,
        apk.sdk == aab.sdk,
        apk.build_type == aab.build_type,
        apk.custom_inputs.build_variant_name == aab.custom_inputs.build_variant_name,
        apk.custom_inputs.build_variant_path == aab.custom_inputs.build_variant_path,
        apk.custom_inputs.show_versions == aab.custom_inputs.show_versions,
        apk.custom_inputs.publishing_format == PublishingFormat::Apk,
        aab.custom_inputs.publishing_format == PublishingFormat::Aab,
    ensures
        code_request(aab) == (CodeRenderView {
            publishing_format: PublishingFormat::Aab,
            ..code_request(apk)
        }),
        info_request(aab) == info_request(apk),
        PublishingFormat::Apk.spec_label() != PublishingFormat::Aab.spec_label(),
{
    reveal_strlit("APK");
    reveal_strlit("AAB");
    assert("APK"@[1] != "AAB"@[1]);
}

} // verus!
