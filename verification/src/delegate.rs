//! The delegate that receives notifications about a web view, and the controller through which
//! the embedder takes over selected controls.

use vstd::prelude::*;
use vstd::utf8::{encode_utf8, is_ascii_chars};

use crate::control::ServoEmbedderControl;
use crate::origin::{
    document_origin, document_origin_text, optional_text, shallow, url_ascii_origin,
};
use crate::tag::{takes, ServoEmbedderControlTag, SERVO_EMBEDDER_CONTROL_NONE};

verus! {

/// Lets the embedder take over selected controls.
///
/// `K` is the type of the callback: a function of the web view's handle, the control offered and
/// the delegate's `user_data`, which returns whether the embedder handled the control.
pub struct ServoEmbedderController<K> {
    /// A bitmask of `SERVO_EMBEDDER_CONTROL_*` bits. A control whose tag bit is set here is
    /// offered to `on_control`; every other control follows the engine's default path.
    /// `SERVO_EMBEDDER_CONTROL_NONE` changes nothing.
    pub flags: u64,
    /// Returns `true` to report the control as handled, in which case the engine does nothing
    /// further with it, or `false` to decline it and let the engine follow its default path.
    pub on_control: Option<K>,
}

/// Receives notifications about the events of a web view.
///
/// A callback that is not needed is `None`. Every callback receives `user_data`, and a handle to
/// the web view that is given away to it: a callback is run once for an event, if at all.
///
/// The callbacks are a parameter of the type. `L` takes the web view, the number of a load status
/// and `user_data`; `N` takes the web view and `user_data`; `K` is described at
/// [`ServoEmbedderController`].
pub struct ServoWebViewDelegate<U, L, N, K> {
    /// An opaque value passed to all callbacks.
    pub user_data: U,
    /// Called when the load status of the web view changes.
    pub notify_load_status_changed: Option<L>,
    /// Called when a new frame is ready to be painted.
    pub notify_new_frame_ready: Option<N>,
    /// The controller of the embedder, or `None` to keep the engine's default behaviour for every
    /// control.
    pub embedder_control: Option<ServoEmbedderController<K>>,
}

/// What the engine gets back from a control that was offered: nothing where the embedder handled
/// it, the control itself where the embedder declined it.
pub open spec fn left_over<E>(handled: bool, embedder_control: E) -> Option<E> {
    if handled {
        None
    } else {
        Some(embedder_control)
    }
}

/// Whether a callback can be run on the control that the engine originates for a tag and an
/// origin.
pub open spec fn accepts_origin<W, U, K: Fn(W, &ServoEmbedderControl<'_>, U) -> bool>(
    on_control: K,
    webview: W,
    tag: ServoEmbedderControlTag,
    origin: Seq<char>,
    user_data: U,
) -> bool {
    forall|control: ServoEmbedderControl<'_>|
        #[trigger] control.describes(tag, origin) ==> call_requires(
            on_control,
            (webview, &control, user_data),
        )
}

/// Whether a callback can be run on the controls that the engine originates for a tag, whatever
/// the origin, which is ASCII.
pub open spec fn accepts<W, U, K: Fn(W, &ServoEmbedderControl<'_>, U) -> bool>(
    on_control: K,
    webview: W,
    tag: ServoEmbedderControlTag,
    user_data: U,
) -> bool {
    forall|origin: Seq<char>| #[trigger]
        is_ascii_chars(origin) ==> accepts_origin(on_control, webview, tag, origin, user_data)
}

/// Whether a callback was run on the control that the engine originates for a tag and an origin,
/// and `unhandled` is what its answer leaves of `embedder_control`.
pub open spec fn offered<W, U, E, K: Fn(W, &ServoEmbedderControl<'_>, U) -> bool>(
    on_control: K,
    webview: W,
    tag: ServoEmbedderControlTag,
    origin: Seq<char>,
    user_data: U,
    embedder_control: E,
    unhandled: Option<E>,
) -> bool {
    exists|control: ServoEmbedderControl<'_>, handled: bool|
        {
            &&& control.describes(tag, origin)
            &&& #[trigger] call_ensures(on_control, (webview, &control, user_data), handled)
            &&& unhandled == left_over(handled, embedder_control)
        }
}

/// What the engine gets back, given the answer of the embedder.
pub fn answer<E>(handled: bool, embedder_control: E) -> (unhandled: Option<E>)
    ensures
        unhandled == left_over(handled, embedder_control),
        handled ==> unhandled is None,
        !handled ==> unhandled == Some(embedder_control),
{
    if handled {
        None
    } else {
        Some(embedder_control)
    }
}

/// Offers a control of a known tag and origin to a callback, and returns what its answer leaves.
pub fn offer_control<W, U, E, K>(
    on_control: &K,
    webview: W,
    tag: ServoEmbedderControlTag,
    origin: &str,
    user_data: U,
    embedder_control: E,
) -> (unhandled: Option<E>) where K: Fn(W, &ServoEmbedderControl<'_>, U) -> bool
    requires
        accepts_origin(*on_control, webview, tag, origin@, user_data),
    ensures
        offered(*on_control, webview, tag, origin@, user_data, embedder_control, unhandled),
        exists|control: ServoEmbedderControl<'_>, handled: bool|
            {
                &&& #[trigger] call_ensures(*on_control, (webview, &control, user_data), handled)
                &&& tag is ContextMenu ==> control.tag == 1
                &&& tag is Select ==> control.tag == 2
                &&& tag is FilePicker ==> control.tag == 3
                &&& tag is WasmImport ==> control.tag == 4
                &&& tag is WebMcpToolCall ==> control.tag == 5
                &&& control.origin@ == encode_utf8(origin@)
                &&& control.payload is None
                &&& handled ==> unhandled is None
                &&& !handled ==> unhandled == Some(embedder_control)
            },
{
    let control = ServoEmbedderControl::new(tag, origin);
    let handled = on_control(webview, &control, user_data);
    answer(handled, embedder_control)
}

/// A control is handled or it comes back, never both and never neither, and what comes back is the
/// control itself.
pub proof fn law_handled_or_given_back<E>(handled: bool, embedder_control: E)
    ensures
        left_over(handled, embedder_control) is None <==> handled,
        left_over(handled, embedder_control) == Some(embedder_control) <==> !handled,
{
}

/// A control was offered exactly when the callback was run on the control that carries the number
/// of the kind, the bytes of the origin and no payload, and its answer alone decides what is left:
/// nothing after `true`, the control itself after `false`, whatever the kind and the origin.
pub proof fn law_offer_follows_the_answer<W, U, E, K: Fn(W, &ServoEmbedderControl<'_>, U) -> bool>(
    on_control: K,
    webview: W,
    tag: ServoEmbedderControlTag,
    origin: Seq<char>,
    user_data: U,
    embedder_control: E,
    unhandled: Option<E>,
)
    ensures
        offered(on_control, webview, tag, origin, user_data, embedder_control, unhandled) <==> (
        exists|control: ServoEmbedderControl<'_>, handled: bool|
            {
                &&& #[trigger] call_ensures(on_control, (webview, &control, user_data), handled)
                &&& tag is ContextMenu ==> control.tag == 1
                &&& tag is Select ==> control.tag == 2
                &&& tag is FilePicker ==> control.tag == 3
                &&& tag is WasmImport ==> control.tag == 4
                &&& tag is WebMcpToolCall ==> control.tag == 5
                &&& control.origin@ == encode_utf8(origin)
                &&& control.payload is None
                &&& (unhandled is None <==> handled)
                &&& !handled ==> unhandled == Some(embedder_control)
            }),
{
}

/// A callback that only ever answers `true` leaves nothing of a control offered to it, and one that
/// only ever answers `false` leaves the control itself.
pub proof fn law_constant_answers_decide<W, U, E, K: Fn(W, &ServoEmbedderControl<'_>, U) -> bool>(
    on_control: K,
    webview: W,
    tag: ServoEmbedderControlTag,
    origin: Seq<char>,
    user_data: U,
    embedder_control: E,
    unhandled: Option<E>,
    constant: bool,
)
    requires
        offered(on_control, webview, tag, origin, user_data, embedder_control, unhandled),
        forall|control: ServoEmbedderControl<'_>, handled: bool| #[trigger]
            call_ensures(on_control, (webview, &control, user_data), handled) ==> handled
                == constant,
    ensures
        constant ==> unhandled is None,
        !constant ==> unhandled == Some(embedder_control),
{
}

/// What is asked of a callback for an origin is that it can be run on the control that carries the
/// number of the kind, the bytes of that origin and no payload, and nothing more.
pub proof fn law_accepting_an_origin_is_leave_to_call<
    W,
    U,
    K: Fn(W, &ServoEmbedderControl<'_>, U) -> bool,
>(on_control: K, webview: W, tag: ServoEmbedderControlTag, origin: Seq<char>, user_data: U)
    ensures
        accepts_origin(on_control, webview, tag, origin, user_data) <==> (forall|
            control: ServoEmbedderControl<'_>,
        |
            {
                &&& tag is ContextMenu ==> control.tag == 1
                &&& tag is Select ==> control.tag == 2
                &&& tag is FilePicker ==> control.tag == 3
                &&& tag is WasmImport ==> control.tag == 4
                &&& tag is WebMcpToolCall ==> control.tag == 5
                &&& control.origin@ == encode_utf8(origin)
                &&& control.payload is None
            } ==> #[trigger] call_requires(on_control, (webview, &control, user_data))),
{
    if accepts_origin(on_control, webview, tag, origin, user_data) {
        assert forall|control: ServoEmbedderControl<'_>|
            {
                &&& tag is ContextMenu ==> control.tag == 1
                &&& tag is Select ==> control.tag == 2
                &&& tag is FilePicker ==> control.tag == 3
                &&& tag is WasmImport ==> control.tag == 4
                &&& tag is WebMcpToolCall ==> control.tag == 5
                &&& control.origin@ == encode_utf8(origin)
                &&& control.payload is None
            } implies #[trigger] call_requires(on_control, (webview, &control, user_data)) by {
            assert(control.describes(tag, origin));
        }
    }
}

/// A callback is accepted for a kind exactly when it is accepted for every ASCII origin.
pub proof fn law_accepting_a_kind_is_accepting_every_ascii_origin<
    W,
    U,
    K: Fn(W, &ServoEmbedderControl<'_>, U) -> bool,
>(on_control: K, webview: W, tag: ServoEmbedderControlTag, user_data: U)
    ensures
        accepts(on_control, webview, tag, user_data) <==> (forall|origin: Seq<char>|
            is_ascii_chars(origin) ==> #[trigger] accepts_origin(
                on_control,
                webview,
                tag,
                origin,
                user_data,
            )),
{
}

impl<U, L, N, K> ServoWebViewDelegate<U, L, N, K> {
    /// The callback that controls are offered to, if there is a controller and it has one.
    pub open spec fn on_control(self) -> Option<K> {
        match self.embedder_control {
            Some(controller) => controller.on_control,
            None => None,
        }
    }

    /// The mask of the controller, or the empty mask without one.
    pub open spec fn flags(self) -> u64 {
        match self.embedder_control {
            Some(controller) => controller.flags,
            None => SERVO_EMBEDDER_CONTROL_NONE,
        }
    }

    /// Whether a control of a kind is offered to the embedder.
    pub open spec fn offers(self, tag: Option<ServoEmbedderControlTag>) -> bool {
        self.on_control() is Some && (tag matches Some(tag) && takes(self.flags(), tag))
    }

    /// Reports a change of the load status. `load_status` is the number of the new status, one of
    /// the `SERVO_LOAD_STATUS_*` constants.
    pub fn notify_load_status_changed<W>(&self, webview: W, load_status: i32) where
        U: Copy,
        L: Fn(W, i32, U),

        requires
            self.notify_load_status_changed matches Some(callback) ==> call_requires(
                callback,
                (webview, load_status, self.user_data),
            ),
        ensures
            self.notify_load_status_changed matches Some(callback) ==> call_ensures(
                callback,
                (webview, load_status, self.user_data),
                (),
            ),
    {
        if let Some(callback) = &self.notify_load_status_changed {
            callback(webview, load_status, self.user_data);
        }
    }

    /// Reports that a new frame is ready to be painted.
    pub fn notify_new_frame_ready<W>(&self, webview: W) where U: Copy, N: Fn(W, U)
        requires
            self.notify_new_frame_ready matches Some(callback) ==> call_requires(
                callback,
                (webview, self.user_data),
            ),
        ensures
            self.notify_new_frame_ready matches Some(callback) ==> call_ensures(
                callback,
                (webview, self.user_data),
                (),
            ),
    {
        if let Some(callback) = &self.notify_new_frame_ready {
            callback(webview, self.user_data);
        }
    }

    /// The controller of the embedder, if there is one.
    pub fn controller(&self) -> (controller: Option<&ServoEmbedderController<K>>)
        ensures
            controller is Some <==> self.embedder_control is Some,
            controller matches Some(controller) ==> self.embedder_control == Some(*controller),
    {
        match &self.embedder_control {
            Some(controller) => Some(controller),
            None => None,
        }
    }

    /// The mask of the controls that the embedder takes, empty without a controller.
    pub fn embedder_control_flags(&self) -> (flags: u64)
        ensures
            flags == self.flags(),
            self.embedder_control matches Some(controller) ==> flags == controller.flags,
            self.embedder_control is None ==> flags == 0,
    {
        match self.controller() {
            Some(controller) => controller.flags,
            None => SERVO_EMBEDDER_CONTROL_NONE,
        }
    }

    /// Whether a control of this kind is offered to the embedder: there is a callback, and the
    /// control has a tag whose bit is set in the mask.
    pub fn offers_control(&self, tag: Option<ServoEmbedderControlTag>) -> (offers: bool)
        ensures
            offers == self.offers(tag),
            offers <==> ({
                &&& self.embedder_control matches Some(controller)
                &&& controller.on_control is Some
                &&& tag matches Some(kind)
                &&& takes(controller.flags, kind)
            }),
    {
        match (self.controller(), tag) {
            (Some(controller), Some(tag)) => controller.on_control.is_some() && tag.taken_by(
                controller.flags,
            ),
            _ => false,
        }
    }

    /// Offers a control to the embedder, if its tag bit is set in the mask. `url` is the text of
    /// the URL of the document that triggered the control and `tag` the kind of the control, each
    /// if there is one. `url` plays no part where the control is not offered; where it is,
    /// the text must not start with too many `blob:` prefixes (see [`crate::origin::is_shallow`]).
    ///
    /// Returns `None` where the embedder handled the control. Returns the control itself, for the
    /// engine to follow its default path, where the embedder declined it or has no callback,
    /// where the control has no tag, and where its tag bit is clear.
    pub fn handle_embedder_control<W, E>(
        &self,
        webview: W,
        url: Option<&str>,
        tag: Option<ServoEmbedderControlTag>,
        embedder_control: E,
    ) -> (unhandled: Option<E>) where U: Copy, K: Fn(W, &ServoEmbedderControl<'_>, U) -> bool
        requires
            (self.on_control(), tag) matches (Some(callback), Some(tag)) ==> takes(self.flags(), tag)
                ==> accepts(callback, webview, tag, self.user_data),
            self.offers(tag) ==> (url matches Some(text) ==> shallow(text@)),
        ensures
            (self.on_control(), tag) matches (Some(callback), Some(tag)) ==> takes(self.flags(), tag)
                ==> offered(
                callback,
                webview,
                tag,
                document_origin_text(optional_text(url)),
                self.user_data,
                embedder_control,
                unhandled,
            ),
            self.offers(tag) ==> is_ascii_chars(document_origin_text(optional_text(url))),
            self.embedder_control matches Some(controller) ==> (controller.on_control matches Some(
                callback,
            ) ==> (tag matches Some(kind) ==> (takes(controller.flags, kind) ==> exists|
                control: ServoEmbedderControl<'_>,
                handled: bool,
            |
                {
                    &&& #[trigger] call_ensures(
                        callback,
                        (webview, &control, self.user_data),
                        handled,
                    )
                    &&& kind is ContextMenu ==> control.tag == 1
                    &&& kind is Select ==> control.tag == 2
                    &&& kind is FilePicker ==> control.tag == 3
                    &&& kind is WasmImport ==> control.tag == 4
                    &&& kind is WebMcpToolCall ==> control.tag == 5
                    &&& url matches Some(text) ==> (url_ascii_origin(text@) matches Some(
                        serialization,
                    ) ==> control.origin@ == encode_utf8(serialization))
                    &&& url matches Some(text) ==> (url_ascii_origin(text@) is None
                        ==> control.origin@.len() == 0)
                    &&& url is None ==> control.origin@.len() == 0
                    &&& control.payload is None
                    &&& handled ==> unhandled is None
                    &&& !handled ==> unhandled == Some(embedder_control)
                }))),
            self.embedder_control is None ==> unhandled == Some(embedder_control),
            self.embedder_control matches Some(controller) ==> (controller.on_control is None
                ==> unhandled == Some(embedder_control)),
            self.embedder_control matches Some(controller) ==> (tag matches Some(kind) ==> (!takes(
                controller.flags,
                kind,
            ) ==> unhandled == Some(embedder_control))),
            tag is None ==> unhandled == Some(embedder_control),
            self.on_control() is None ==> unhandled == Some(embedder_control),
            !(tag matches Some(tag) && takes(self.flags(), tag)) ==> unhandled == Some(
                embedder_control,
            ),
    {
        let on_control = match self.controller() {
            Some(controller) => &controller.on_control,
            None => &None,
        };
        match (on_control, tag) {
            (Some(callback), Some(tag)) if tag.taken_by(self.embedder_control_flags()) => {
                let origin = document_origin(url);
                offer_control(
                    callback,
                    webview,
                    tag,
                    origin.as_str(),
                    self.user_data,
                    embedder_control,
                )
            },
            _ => Some(embedder_control),
        }
    }

    /// The callback and the mask of a delegate are those of its controller, whatever they are, and
    /// without a controller there is no callback and the mask is zero.
    pub proof fn law_callback_and_mask_are_the_controllers(self)
        ensures
            self.embedder_control matches Some(controller) ==> {
                &&& self.on_control() == controller.on_control
                &&& self.flags() == controller.flags
            },
            self.embedder_control is None ==> self.on_control() is None && self.flags() == 0,
    {
    }

    /// A control is offered exactly when the controller has a callback and its mask holds the bit
    /// of the control's kind, whatever other bits it holds; a control without a tag never is.
    pub proof fn law_callback_and_bit_decide_the_offer(
        self,
        controller: ServoEmbedderController<K>,
        kind: ServoEmbedderControlTag,
    )
        requires
            self.embedder_control == Some(controller),
        ensures
            self.offers(Some(kind)) <==> {
                &&& controller.on_control is Some
                &&& kind is ContextMenu ==> controller.flags & 0x01 != 0
                &&& kind is Select ==> controller.flags & 0x02 != 0
                &&& kind is FilePicker ==> controller.flags & 0x04 != 0
                &&& kind is WasmImport ==> controller.flags & 0x08 != 0
                &&& kind is WebMcpToolCall ==> controller.flags & 0x10 != 0
            },
            !self.offers(None),
    {
        crate::tag::law_each_tag_is_taken_by_its_own_bit(controller.flags);
    }

    /// A delegate without a controller takes no control: its mask is empty, and no control is
    /// offered whatever its tag.
    pub proof fn law_no_controller_takes_nothing(self, tag: Option<ServoEmbedderControlTag>)
        requires
            self.embedder_control is None,
        ensures
            self.flags() == SERVO_EMBEDDER_CONTROL_NONE,
            !self.offers(tag),
    {
    }

    /// The empty mask changes nothing: no control is offered, even where there is a callback.
    pub proof fn law_empty_mask_offers_nothing(self, tag: Option<ServoEmbedderControlTag>)
        requires
            self.flags() == SERVO_EMBEDDER_CONTROL_NONE,
        ensures
            !self.offers(tag),
    {
        if let Some(tag) = tag {
            crate::tag::law_none_takes_nothing(tag);
        }
    }

    /// With the full mask and a callback, every control that has a tag is offered.
    pub proof fn law_full_mask_offers_every_tag(self, tag: ServoEmbedderControlTag)
        requires
            self.flags() == crate::tag::SERVO_EMBEDDER_CONTROL_ALL,
            self.on_control() is Some,
        ensures
            self.offers(Some(tag)),
    {
        crate::tag::law_all_takes_every_tag(tag, 0);
    }
}

} // verus!
