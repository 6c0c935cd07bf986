# livekit_publication

Track publications of a media room, written in Rust and verified with Verus.

A publication is what a participant has announced to the server: its description, its callbacks
and, while there is one, its track. Many parts of a client hold on to the same publication, and a
publication and its track refer to each other: the publication holds the track, and the track tells
the publication when it is muted or unmuted. Were both references strong, neither would ever be
released. So the track knows its publication only weakly.

To state and prove that, shared ownership is explicit here. A `Registry` owns what handles share.
Handles are given out by it, cloned through it and given back to it, and it releases a publication
or a track with the last holder. Handles carry the home of their registry, and a registry of another
home refuses them. A track that outlives the publication it told keeps that publication's callbacks
until it is told of another one or released. `state::RegistryState` is the registry as a
mathematical value; the contract of every call says which state it leads to.

| Module | Content |
| --- | --- |
| `proto` | the server's description of a track, and how its numbers are read |
| `id`, `media` | identifiers; kind, source, size and encryption of a track |
| `info` | what is known of a publication, from a first and from later descriptions |
| `handle` | strong and weak handles on publications and tracks |
| `registry` | the owner of what handles share |
| `publication` | what can be done with a publication |
| `state` | the shared state and what each call makes of it |
| `laws` | what holds of the library as a whole |

`app/` puts one registry behind a lock and gives handles that clone and release themselves, for
programs that share publications between threads.
