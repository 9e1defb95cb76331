//! The guarded version of a handler, written from the handler's declaration.
//!
//! A declaration is handled as text: the parts of the handler's function
//! item, and the parts of the requirement that it was declared with. The
//! guarded handler takes the caller's authorities as an additional first
//! parameter, runs the declared body where the requirement is met, and
//! otherwise answers with an error response.

use vstd::prelude::*;
use vstd::string::*;
use crate::condition::{requirement_text, CheckKind, Condition};
use crate::authority::models;
use crate::syntax::{parse_item_fn, parse_signature, parsed_item_fn, parsed_signature};
use crate::text::{
    append_spaced, decimal, decimal_string, join, joined, quote_literal, quoted, spaced, views,
};

verus! {

/// The view of an optional text.
pub open spec fn text_view(text: Option<String>) -> Option<Seq<char>> {
    match text {
        Some(t) => Some(t@),
        None => None,
    }
}

/// The signature of a handler as it was declared.
#[derive(Clone, Debug, PartialEq, Eq)]
pub struct Signature {
    /// Whether the function is declared `const`.
    pub is_const: bool,
    /// Whether the function is declared `async`.
    pub is_async: bool,
    /// Whether the function is declared `unsafe`.
    pub is_unsafe: bool,
    /// The ABI with its keyword; empty without one.
    pub abi: String,
    /// The name of the function.
    pub name: String,
    /// The generic parameters with their angle brackets; empty without any.
    pub generics: String,
    /// The parameters, one text for each.
    pub inputs: Vec<String>,
    /// The return type, where one is written.
    pub output: Option<String>,
    /// The where clause with its keyword; empty without one.
    pub where_clause: String,
}

/// The mathematical content of a [`Signature`].
pub struct SignatureView {
    pub is_const: bool,
    pub is_async: bool,
    pub is_unsafe: bool,
    pub abi: Seq<char>,
    pub name: Seq<char>,
    pub generics: Seq<char>,
    pub inputs: Seq<Seq<char>>,
    pub output: Option<Seq<char>>,
    pub where_clause: Seq<char>,
}

impl View for Signature {
    type V = SignatureView;

    open spec fn view(&self) -> SignatureView {
        SignatureView {
            is_const: self.is_const,
            is_async: self.is_async,
            is_unsafe: self.is_unsafe,
            abi: self.abi@,
            name: self.name@,
            generics: self.generics@,
            inputs: views(self.inputs@),
            output: text_view(self.output),
            where_clause: self.where_clause@,
        }
    }
}

/// A handler as it was declared: the parts of its function item.
#[derive(Clone, Debug, PartialEq, Eq)]
pub struct HandlerFn {
    /// The attributes above the function, one text for each.
    pub attrs: Vec<String>,
    /// The visibility; empty for a private function.
    pub vis: String,
    /// The signature.
    pub sig: Signature,
    /// The body with its braces.
    pub block: String,
}

/// The mathematical content of a [`HandlerFn`].
pub struct HandlerFnView {
    pub attrs: Seq<Seq<char>>,
    pub vis: Seq<char>,
    pub sig: SignatureView,
    pub block: Seq<char>,
}

impl View for HandlerFn {
    type V = HandlerFnView;

    open spec fn view(&self) -> HandlerFnView {
        HandlerFnView {
            attrs: views(self.attrs@),
            vis: self.vis@,
            sig: self.sig@,
            block: self.block@,
        }
    }
}

/// The requirement that a handler was declared with.
#[derive(Debug)]
pub struct Args {
    /// The kind of check and its literals. With a type override the
    /// literals are expressions of that type, without one they are the
    /// text authorities themselves.
    pub cond: Condition<String>,
    /// The guard: a boolean expression over the handler's parameters.
    pub secure: Option<String>,
    /// The authority type, where it is not the text default.
    pub ty: Option<String>,
    /// A function that gives the error response, in place of the configured
    /// handlers.
    pub error_fn: Option<String>,
}

/// The mathematical content of an [`Args`].
pub struct ArgsView {
    pub kind: CheckKind,
    pub literals: Seq<Seq<char>>,
    pub secure: Option<Seq<char>>,
    pub ty: Option<Seq<char>>,
    pub error_fn: Option<Seq<char>>,
}

impl View for Args {
    type V = ArgsView;

    open spec fn view(&self) -> ArgsView {
        ArgsView {
            kind: self.cond.kind,
            literals: views(self.cond.literals@),
            secure: text_view(self.secure),
            ty: text_view(self.ty),
            error_fn: text_view(self.error_fn),
        }
    }
}

/// The name of the method that checks a requirement of the kind `kind`.
pub open spec fn check_method(kind: CheckKind) -> Seq<char> {
    match kind {
        CheckKind::AllOf => "has_permissions"@,
        CheckKind::AnyOf => "has_any_permission"@,
        CheckKind::RoleAllOf => "has_roles"@,
        CheckKind::RoleAnyOf => "has_any_role"@,
    }
}

/// The name of the parameter that receives the caller's authorities. It
/// ends in the number of the handler's own parameters.
pub open spec fn authorities_param(func: HandlerFnView) -> Seq<char> {
    "_auth_details_"@ + decimal(func.sig.inputs.len())
}

/// The name of the parameter that receives the request.
pub open spec fn request_param(func: HandlerFnView) -> Seq<char> {
    "_req_"@ + decimal(func.sig.inputs.len())
}

/// The authority type of the guarded handler.
pub open spec fn authority_type(args: ArgsView) -> Seq<char> {
    match args.ty {
        Some(ty) => ty,
        None => "String"@,
    }
}

/// The literals as they are handed to the check: string literals for text
/// authorities, borrowed expressions under a type override.
pub open spec fn literal_items(args: ArgsView) -> Seq<Seq<char>> {
    Seq::new(
        args.literals.len(),
        |i: int|
            if args.ty is Some {
                "&"@ + args.literals[i]
            } else {
                quoted(args.literals[i])
            },
    )
}

/// The condition of the guarded handler: the check of the literals and, in
/// parentheses behind it, the guard.
pub open spec fn condition_text(func: HandlerFnView, args: ArgsView) -> Seq<char> {
    let check = authorities_param(func) + "."@ + check_method(args.kind) + "(&["@ + joined(
        literal_items(args),
        ", "@,
    ) + "])"@;
    match args.secure {
        Some(guard) => check + " && ("@ + guard + ")"@,
        None => check,
    }
}

/// The reason that a denial reports: the text of the requirement.
pub open spec fn declared_reason(args: ArgsView) -> Seq<char> {
    if args.ty is Some {
        joined(args.literals, args.kind.spec_separator())
    } else {
        requirement_text::<String>(args.kind, args.literals)
    }
}

/// The expression that gives the error response. With an error function it
/// is a call of that function. Without one it asks the handler configured
/// for the authority type, then the general handler, and falls back to an
/// empty forbidden response.
pub open spec fn error_response_text(func: HandlerFnView, args: ArgsView) -> Seq<char> {
    match args.error_fn {
        Some(error_fn) => error_fn + "()"@,
        None => "{ let condition = "@ + quoted(declared_reason(args)) + "; let err_handler = "@
            + request_param(func) + ".app_data::<actix_web_grants::GrantErrorConfig<"@
            + authority_type(args)
            + ">>().and_then(|c| c.err_handler.clone()); if let Some(err_handler) = err_handler { (err_handler)(condition, &*"@
            + authorities_param(func)
            + ".authorities) } else { let err_handler = "@
            + request_param(func)
            + ".app_data::<actix_web_grants::GrantsConfig>().and_then(|c| c.grants_err_handler.clone()); if let Some(err_handler) = err_handler { let authorities = "@
            + authorities_param(func)
            + ".authorities.iter().map(|a| a as &dyn std::any::Any).collect::<Vec<_>>(); (err_handler)(condition, authorities.as_slice()) } else { actix_web::HttpResponse::Forbidden().finish() } } }"@,
    }
}

/// The request parameter with its type, where the error response needs the
/// request.
pub open spec fn request_param_text(func: HandlerFnView, args: ArgsView) -> Seq<char> {
    match args.error_fn {
        Some(_) => Seq::empty(),
        None => request_param(func) + ": actix_web::HttpRequest, "@,
    }
}

/// The return type of the declared handler.
pub open spec fn output_type(func: HandlerFnView) -> Seq<char> {
    match func.sig.output {
        Some(ty) => ty,
        None => "()"@,
    }
}

/// The qualifiers of the guarded handler in front of `fn`: those of the
/// declared handler, which is `async`.
pub open spec fn qualifiers_text(sig: SignatureView) -> Seq<char> {
    (if sig.is_const {
        "const "@
    } else {
        Seq::empty()
    }) + "async "@ + (if sig.is_unsafe {
        "unsafe "@
    } else {
        Seq::empty()
    }) + spaced(sig.abi)
}

/// The guarded handler: the attributes, visibility, qualifiers, name,
/// generics and where clause of the declared handler; its parameters behind
/// the injected ones; its return type widened to either that type or an
/// error response; its body run where the condition holds.
pub open spec fn guarded_handler_text(func: HandlerFnView, args: ArgsView) -> Seq<char> {
    spaced(joined(func.attrs, " "@)) + spaced(func.vis) + qualifiers_text(func.sig) + "fn "@
        + func.sig.name + func.sig.generics + "("@ + authorities_param(func)
        + ": actix_web_grants::authorities::AuthDetails<"@ + authority_type(args) + ">, "@
        + request_param_text(func, args) + joined(func.sig.inputs, ", "@)
        + ") -> actix_web::Either<"@ + output_type(func) + ", actix_web::HttpResponse> "@ + spaced(
        func.sig.where_clause,
    ) + "{ use actix_web_grants::authorities::AuthoritiesCheck; if "@ + condition_text(func, args)
        + " { let f = || async move "@ + func.block
        + "; actix_web::Either::Left(f().await) } else { actix_web::Either::Right("@
        + error_response_text(func, args) + ") } }"@
}

/// A handler together with the requirement that guards it.
#[derive(Debug)]
pub struct ProtectEndpoint {
    pub func: HandlerFn,
    pub args: Args,
}

impl ProtectEndpoint {
    /// Whether the handler can be guarded: it is `async`.
    pub open spec fn well_formed(&self) -> bool {
        self.func.sig.is_async
    }

    /// The name of the method that checks the requirement.
    fn check_method(&self) -> (name: &'static str)
        ensures
            name@ == check_method(self.args@.kind),
    {
        match self.args.cond.kind {
            CheckKind::AllOf => "has_permissions",
            CheckKind::AnyOf => "has_any_permission",
            CheckKind::RoleAllOf => "has_roles",
            CheckKind::RoleAnyOf => "has_any_role",
        }
    }

    fn authorities_param(&self) -> (name: String)
        ensures
            name@ == authorities_param(self.func@),
    {
        let mut name = String::from_str("_auth_details_");
        name.append(decimal_string(self.func.sig.inputs.len()).as_str());
        name
    }

    fn request_param(&self) -> (name: String)
        ensures
            name@ == request_param(self.func@),
    {
        let mut name = String::from_str("_req_");
        name.append(decimal_string(self.func.sig.inputs.len()).as_str());
        name
    }

    fn authority_type(&self) -> (ty: &str)
        ensures
            ty@ == authority_type(self.args@),
    {
        match &self.args.ty {
            Some(ty) => ty.as_str(),
            None => "String",
        }
    }

    fn literal_items(&self) -> (items: Vec<String>)
        ensures
            views(items@) == literal_items(self.args@),
    {
        let typed = self.args.ty.is_some();
        let literals = &self.args.cond.literals;
        let mut items: Vec<String> = Vec::new();
        let mut i: usize = 0;
        while i < literals.len()
            invariant
                i <= literals.len(),
                literals == &self.args.cond.literals,
                typed == (self.args@.ty is Some),
                items@.len() == i,
                forall|j: int| 0 <= j < i ==> (#[trigger] items@[j])@ == literal_items(self.args@)[j],
            decreases literals.len() - i,
        {
            let item = if typed {
                let mut item = String::from_str("&");
                item.append(literals[i].as_str());
                item
            } else {
                quote_literal(literals[i].as_str())
            };
            items.push(item);
            i = i + 1;
        }
        assert(views(items@) =~= literal_items(self.args@));
        items
    }

    fn condition_text(&self) -> (text: String)
        ensures
            text@ == condition_text(self.func@, self.args@),
    {
        let mut text = self.authorities_param();
        text.append(".");
        text.append(self.check_method());
        text.append("(&[");
        text.append(join(&self.literal_items(), ", ").as_str());
        text.append("])");
        match &self.args.secure {
            Some(guard) => {
                text.append(" && (");
                text.append(guard.as_str());
                text.append(")");
            },
            None => {},
        }
        text
    }

    fn declared_reason(&self) -> (text: String)
        ensures
            text@ == declared_reason(self.args@),
    {
        if self.args.ty.is_some() {
            join(&self.args.cond.literals, self.args.cond.kind.separator())
        } else {
            assert(models(self.args.cond.literals@) =~= views(self.args.cond.literals@));
            self.args.cond.reason()
        }
    }

    fn error_response_text(&self) -> (text: String)
        ensures
            text@ == error_response_text(self.func@, self.args@),
    {
        match &self.args.error_fn {
            Some(error_fn) => {
                let mut text = error_fn.clone();
                text.append("()");
                text
            },
            None => {
                let auth = self.authorities_param();
                let req = self.request_param();
                let mut text = String::from_str("{ let condition = ");
                text.append(quote_literal(self.declared_reason().as_str()).as_str());
                text.append("; let err_handler = ");
                text.append(req.as_str());
                text.append(".app_data::<actix_web_grants::GrantErrorConfig<");
                text.append(self.authority_type());
                text.append(
                    ">>().and_then(|c| c.err_handler.clone()); if let Some(err_handler) = err_handler { (err_handler)(condition, &*",
                );
                text.append(auth.as_str());
                text.append(".authorities) } else { let err_handler = ");
                text.append(req.as_str());
                text.append(
                    ".app_data::<actix_web_grants::GrantsConfig>().and_then(|c| c.grants_err_handler.clone()); if let Some(err_handler) = err_handler { let authorities = ",
                );
                text.append(auth.as_str());
                text.append(
                    ".authorities.iter().map(|a| a as &dyn std::any::Any).collect::<Vec<_>>(); (err_handler)(condition, authorities.as_slice()) } else { actix_web::HttpResponse::Forbidden().finish() } } }",
                );
                text
            },
        }
    }

    fn request_param_text(&self) -> (text: String)
        ensures
            text@ == request_param_text(self.func@, self.args@),
    {
        match &self.args.error_fn {
            Some(_) => String::new(),
            None => {
                let mut text = self.request_param();
                text.append(": actix_web::HttpRequest, ");
                text
            },
        }
    }

    fn qualifiers_text(&self) -> (text: String)
        requires
            self.well_formed(),
        ensures
            text@ == qualifiers_text(self.func@.sig),
    {
        let mut text = String::new();
        if self.func.sig.is_const {
            text.append("const ");
        } else {
            assert(text@ =~= text@ + Seq::<char>::empty());
        }
        text.append("async ");
        let ghost before = text@;
        if self.func.sig.is_unsafe {
            text.append("unsafe ");
        } else {
            assert(before =~= before + Seq::<char>::empty());
        }
        append_spaced(&mut text, self.func.sig.abi.as_str());
        text
    }

    fn output_type(&self) -> (ty: &str)
        ensures
            ty@ == output_type(self.func@),
    {
        match &self.func.sig.output {
            Some(ty) => ty.as_str(),
            None => "()",
        }
    }

    /// Writes the guarded handler behind what `output` holds.
    ///
    /// Only an `async` handler can be guarded.
    pub fn to_tokens_actix_web(&self, output: &mut String)
        requires
            self.well_formed(),
        ensures
            final(output)@ == old(output)@ + guarded_handler_text(self.func@, self.args@),
    {
        let mut text = String::new();
        append_spaced(&mut text, join(&self.func.attrs, " ").as_str());
        append_spaced(&mut text, self.func.vis.as_str());
        text.append(self.qualifiers_text().as_str());
        text.append("fn ");
        text.append(self.func.sig.name.as_str());
        text.append(self.func.sig.generics.as_str());
        text.append("(");
        text.append(self.authorities_param().as_str());
        text.append(": actix_web_grants::authorities::AuthDetails<");
        text.append(self.authority_type());
        text.append(">, ");
        text.append(self.request_param_text().as_str());
        text.append(join(&self.func.sig.inputs, ", ").as_str());
        text.append(") -> actix_web::Either<");
        text.append(self.output_type());
        text.append(", actix_web::HttpResponse> ");
        append_spaced(&mut text, self.func.sig.where_clause.as_str());
        text.append("{ use actix_web_grants::authorities::AuthoritiesCheck; if ");
        text.append(self.condition_text().as_str());
        text.append(" { let f = || async move ");
        text.append(self.func.block.as_str());
        text.append("; actix_web::Either::Left(f().await) } else { actix_web::Either::Right(");
        text.append(self.error_response_text().as_str());
        text.append(") } }");
        output.append(text.as_str());
    }
}

/// The view of a handler as it is read.
pub open spec fn func_view(func: Result<HandlerFn, String>) -> Result<HandlerFnView, Seq<char>> {
    match func {
        Ok(func) => Ok(func@),
        Err(error) => Err(error@),
    }
}

/// The handler that the text `source` declares: the parts of the function
/// item, with the signature taken apart in its turn; or the compile error
/// that reports why `source` is no function item.
pub open spec fn handler_of(source: Seq<char>) -> Result<HandlerFnView, Seq<char>> {
    match parsed_item_fn(source) {
        Err(error) => Err(error),
        Ok(parts) => match parsed_signature(parts.sig) {
            Err(error) => Err(error),
            Ok(sig) => Ok(
                HandlerFnView { attrs: parts.attrs, vis: parts.vis, sig, block: parts.block },
            ),
        },
    }
}

/// Reads a handler from the text of its function item.
pub fn read_handler(source: &str) -> (func: Result<HandlerFn, String>)
    ensures
        func_view(func) == handler_of(source@),
{
    let parts = match parse_item_fn(source) {
        Ok(parts) => parts,
        Err(error) => {
            return Err(error);
        },
    };
    match parse_signature(parts.sig.as_str()) {
        Ok(sig) => Ok(HandlerFn { attrs: parts.attrs, vis: parts.vis, sig, block: parts.block }),
        Err(error) => Err(error),
    }
}

} // verus!
