//! Template registry: holds the optional shared layout partial and renders
//! template sources against caller-supplied variables in strict mode, where a
//! reference to a variable that is not supplied fails the render instead of
//! expanding to an empty string.

use vstd::prelude::*;

use std::collections::HashMap;

verus! {

#[verifier::external_type_specification]
#[verifier::external_body]
pub struct ExJsonValue(serde_json::Value);

#[verifier::external_type_specification]
#[verifier::external_body]
pub struct ExHandlebars<'reg>(handlebars::Handlebars<'reg>);

/// The partials registered in a handlebars instance, by name.
pub uninterp spec fn hb_partials(h: handlebars::Handlebars<'static>) -> Map<Seq<char>, Seq<char>>;

/// Whether strict mode is enabled in a handlebars instance.
pub uninterp spec fn hb_strict(h: handlebars::Handlebars<'static>) -> bool;

/// Whether an instance still has its default configuration apart from the
/// strict flag and registered partials: built-in helpers, default escaping,
/// no decorators. Rendering is only pinned down for such instances.
pub uninterp spec fn hb_vanilla(h: handlebars::Handlebars<'static>) -> bool;

/// Whether a partial source compiles as a template; a function of the source
/// text alone.
pub uninterp spec fn partial_src_ok(src: Seq<char>) -> bool;

/// What rendering a one-off template yields — the rendered text, or the
/// engine's error text — as a function of the template source, the
/// registered partials, the strict flag, and the variables.
pub uninterp spec fn hb_render(
    tpl: Seq<char>,
    partials: Map<Seq<char>, Seq<char>>,
    strict: bool,
    vars: Map<String, serde_json::Value>,
) -> Result<Seq<char>, Seq<char>>;

/// Relies on `handlebars::Handlebars::new`: a fresh registry has no
/// registered templates or partials, and strict mode is off by default.
#[verifier::external_body]
fn hb_new() -> (fresh: handlebars::Handlebars<'static>)
    ensures
        hb_partials(fresh) == (Map::<Seq<char>, Seq<char>>::empty()),
        hb_strict(fresh) == false,
        hb_vanilla(fresh),
{
    handlebars::Handlebars::new()
}

/// Relies on `handlebars::Handlebars::set_strict_mode`: sets the strict-mode
/// flag and changes nothing else.
#[verifier::external_body]
fn hb_set_strict(h: &mut handlebars::Handlebars<'static>, enabled: bool)
    ensures
        hb_strict(*final(h)) == enabled,
        hb_partials(*final(h)) == hb_partials(*old(h)),
        hb_vanilla(*final(h)) == hb_vanilla(*old(h)),
{
    h.set_strict_mode(enabled);
}

/// Relies on `handlebars::Handlebars::register_partial`: compiles the source
/// and, on success, registers it under the name; on a compile error the
/// registry is left unchanged. Whether the source compiles depends on the
/// source text alone.
#[verifier::external_body]
fn hb_register_partial(
    h: &mut handlebars::Handlebars<'static>,
    name: &str,
    src: &str,
) -> (r: Result<(), String>)
    ensures
        r is Ok <==> partial_src_ok(src@),
        r is Ok ==> hb_partials(*final(h)) == hb_partials(*old(h)).insert(name@, src@),
        r is Err ==> hb_partials(*final(h)) == hb_partials(*old(h)),
        hb_strict(*final(h)) == hb_strict(*old(h)),
        hb_vanilla(*final(h)) == hb_vanilla(*old(h)),
{
    h.register_partial(name, src).map_err(|e| e.to_string())
}

/// Relies on `handlebars::Handlebars::render_template`: renders a one-off
/// template source against the instance's partials and strict flag; the
/// outcome (rendered text or error text) is a function of those inputs and
/// the variables alone.
#[verifier::external_body]
fn hb_render_template(
    h: &handlebars::Handlebars<'static>,
    tpl: &str,
    vars: &HashMap<String, serde_json::Value>,
) -> (r: Result<String, String>)
    ensures
        hb_vanilla(*h) ==> ({
            let out = hb_render(tpl@, hb_partials(*h), hb_strict(*h), vars@);
            match r {
                Ok(s) => out is Ok && s@ == out->Ok_0,
                Err(e) => out is Err && e@ == out->Err_0,
            }
        }),
{
    h.render_template(tpl, vars).map_err(|e| e.to_string())
}

/// Holds the shared layout partial once loaded. Initialization happens at
/// most once: the first successful call decides the partial for good.
pub struct TemplateRegistry {
    state: Option<Option<String>>,
}

impl TemplateRegistry {
    /// Whether the registry has been initialized.
    pub closed spec fn initialized(self) -> bool {
        self.state is Some
    }

    /// The shared layout partial's source, if one was loaded.
    pub closed spec fn base_partial(self) -> Option<Seq<char>> {
        match self.state {
            Some(Some(s)) => Some(s@),
            _ => None,
        }
    }

    /// A stored partial always compiles.
    pub closed spec fn wf(self) -> bool {
        match self.state {
            Some(Some(s)) => partial_src_ok(s@),
            _ => true,
        }
    }

    /// The partials every render sees: the shared layout under the name
    /// `base`, or nothing.
    pub closed spec fn partials_map(self) -> Map<Seq<char>, Seq<char>> {
        match self.state {
            Some(Some(s)) => Map::<Seq<char>, Seq<char>>::empty().insert("base"@, s@),
            _ => Map::<Seq<char>, Seq<char>>::empty(),
        }
    }

    /// A registry that has not been initialized yet.
    pub fn new() -> (r: Self)
        ensures
            !r.initialized(),
            r.wf(),
    {
        TemplateRegistry { state: None }
    }

    /// Registers the optional shared layout source, exactly once.
    ///
    /// The first successful call wins; on a registry that is already
    /// initialized the call is silently ignored and changes nothing, whatever
    /// argument it is given. A source that does not compile is rejected and
    /// leaves the registry uninitialized, so a later attempt can still
    /// succeed.
    pub fn initialize(&mut self, base: Option<String>) -> (r: Result<(), String>)
        ensures
            old(self).wf() ==> final(self).wf(),
            !old(self).initialized() ==> final(self).wf(),
            old(self).initialized() ==> *final(self) == *old(self) && r is Ok,
            !old(self).initialized() && r is Ok ==> {
                &&& final(self).initialized()
                &&& match base {
                    Some(src) => final(self).base_partial() == Some(src@) && partial_src_ok(src@),
                    None => final(self).base_partial() is None,
                }
            },
            !old(self).initialized() && r is Err ==> {
                &&& !final(self).initialized()
                &&& *final(self) == *old(self)
                &&& base is Some
                &&& !partial_src_ok(base->Some_0@)
            },
    {
        match &self.state {
            Some(_) => Ok(()),
            None => {
                match base {
                    None => {
                        self.state = Some(None);
                        Ok(())
                    },
                    Some(src) => {
                        let mut h = hb_new();
                        hb_set_strict(&mut h, true);
                        match hb_register_partial(&mut h, "base", src.as_str()) {
                            Ok(_) => {
                                self.state = Some(Some(src));
                                Ok(())
                            },
                            Err(e) => Err(e),
                        }
                    },
                }
            },
        }
    }

    /// Renders a template source in strict mode, with the shared layout
    /// available as the partial `base`.
    pub fn render(&self, tpl: &str, vars: &HashMap<String, serde_json::Value>) -> (r: Result<
        String,
        String,
    >)
        requires
            self.initialized(),
        ensures
            self.wf() ==> ({
                let out = hb_render(tpl@, self.partials_map(), true, vars@);
                match r {
                    Ok(s) => out is Ok && s@ == out->Ok_0,
                    Err(e) => out is Err && e@ == out->Err_0,
                }
            }),
            !self.wf() ==> r is Err,
    {
        let mut h = hb_new();
        hb_set_strict(&mut h, true);
        match &self.state {
            Some(Some(src)) => {
                match hb_register_partial(&mut h, "base", src.as_str()) {
                    Ok(_) => {},
                    Err(e) => {
                        return Err(e);
                    },
                }
            },
            _ => {},
        }
        hb_render_template(&h, tpl, vars)
    }
}

} // verus!
