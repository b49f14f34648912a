# sparsha

The element-composition, style-mapping and host-protocol logic of the Sparsha
UI toolkit, written in Verus with its behaviour stated in contracts.

- `src/` is the verified library: element trees and identities, style
  refinements and their merge, the Tailwind class and layout-style
  translations, the structural DOM and widget-bridge plans, the accessibility
  mirror, platform effect plans, and the development-server protocol
  (websocket framing, URL splitting, upgrade handshake, patch selection).
- `app/` is the host around it: TCP sockets and threads of the devserver
  connection, the browser DOM through `web-sys`, conversion to `taffy`
  styles, float colors and the theme.
- `tests/` exercises the library through its public API.

## API notes

- Element identities come from an explicit `ElementIds` source (starting at
  one) that every constructor takes, in place of a process-wide counter.
  Identities are unique among those drawn from one source; two separate
  sources hand out the same identities.
- Distances, colors and flex factors are carried as `f32` bit patterns.
- `ElementRoot` and `element_root` are not here: they implement the `Widget`
  trait of the widget crate, which is not part of this project's sources.
- `Render` takes an identity source and returns an element node; the context
  is passed as a generic parameter.
