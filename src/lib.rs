//! A remote touchpad: a browser page streams pointer commands over a
//! channel, and each session turns them into pointer events on this machine.
use vstd::prelude::*;

pub mod codec;
pub mod delta;
pub mod dispatch;
pub mod gate;
pub mod session;

use crate::codec::{decode, decode_spec, ParseError};
use crate::dispatch::{dispatch, failure_of, ok_op, plan_spec, DeviceError, Dispatched, PointerDevice};

verus! {

/// The page served at the root path: it opens the channel at `/ws` and sends
/// one JSON frame per gesture.
pub const CLIENT_PAGE: &'static str = r#"<!DOCTYPE html>
<html>
<head>
<meta charset="utf-8">
<meta name="viewport" content="width=device-width, initial-scale=1, user-scalable=no">
<title>Touchpad</title>
<style>
html, body { margin: 0; height: 100%; background: #222; color: #ddd; font-family: sans-serif; }
#pad { position: absolute; top: 0; left: 0; right: 0; bottom: 25%; background: #333; }
.button { position: absolute; bottom: 0; height: 25%; width: 50%; background: #444; border: 1px solid #222; box-sizing: border-box; }
#left { left: 0; }
#right { right: 0; }
</style>
</head>
<body>
<div id="pad"></div>
<div id="left" class="button"></div>
<div id="right" class="button"></div>
<script>
const socket = new WebSocket((location.protocol === "https:" ? "wss://" : "ws://") + location.host + "/ws");
function send(type, data) {
  if (socket.readyState === WebSocket.OPEN) {
    socket.send(JSON.stringify(data === undefined ? { type: type } : { type: type, data: data }));
  }
}
let last = null;
const pad = document.getElementById("pad");
pad.addEventListener("touchstart", e => { const t = e.touches[0]; last = { x: t.clientX, y: t.clientY }; e.preventDefault(); });
pad.addEventListener("touchmove", e => {
  const t = e.touches[0];
  if (last !== null) { send("move", { x: Math.trunc(t.clientX - last.x), y: Math.trunc(t.clientY - last.y) }); }
  last = { x: t.clientX, y: t.clientY };
  e.preventDefault();
});
pad.addEventListener("touchend", () => { last = null; });
for (const side of ["left", "right"]) {
  const el = document.getElementById(side);
  el.addEventListener("touchstart", e => { send(side + "_down"); e.preventDefault(); });
  el.addEventListener("touchend", e => { send(side + "_up"); e.preventDefault(); });
}
</script>
</body>
</html>
"#;

/// The client page.
pub fn get_client_page() -> (r: &'static str)
    ensures
        r@ == CLIENT_PAGE@,
{
    CLIENT_PAGE
}

/// Decodes one text frame and, where it decodes, dispatches it to `mouse`.
/// A frame that does not decode reaches the device not at all; one that
/// decodes hands it at most one operation.
pub fn parse_message<D: PointerDevice>(message: String, mouse: &mut D) -> (r: Result<
    Dispatched,
    ParseError,
>)
    ensures
        match decode_spec(message@) {
            Err(e) => r == Err::<Dispatched, ParseError>(e) && final(mouse).history() == old(
                mouse,
            ).history(),
            Ok(c) => match r {
                Ok(d) => {
                    &&& final(mouse).history() == match d.issued {
                        Some(op) => old(mouse).history().push(op),
                        None => old(mouse).history(),
                    }
                    &&& d.issued == ok_op(plan_spec(c, d.position))
                    &&& plan_spec(c, d.position) is Err ==> d.result == Err::<(), DeviceError>(
                        plan_spec(c, d.position)->Err_0,
                    )
                    &&& plan_spec(c, d.position) is Ok ==> (d.result is Ok || d.result == Err::<
                        (),
                        DeviceError,
                    >(failure_of(plan_spec(c, d.position)->Ok_0)))
                },
                Err(_) => false,
            },
        },
{
    match decode(message.as_str()) {
        Err(e) => Err(e),
        Ok(command) => Ok(dispatch(&command, mouse)),
    }
}

} // verus!
