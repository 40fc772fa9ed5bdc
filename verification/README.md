# spqtify

Rich link previews for Spotify links posted in Discord. A request for
`/track/<id>`, `/episode/<id>`, `/album/<id>` or `/playlist/<id>` from Discord's
link previewer gets an HTML page whose Open Graph tags point at a generated
image and a short preview video (the track's og image over its audio preview);
everyone else is redirected to the same page on open.spotify.com.

## Layout

- `src/` is the verified library (Verus). It holds the logic with its
  contracts: the size-bounded LRU caches and their laws, the single-flight
  bookkeeping of preview generations, the steps of serving, generating and
  rendering a preview and of answering a page, the reading of Spotify's embed
  data, and the URLs, paths and HTML that the service produces.
- `app/` is the service around it: the axum routes, HTTP requests to Spotify and
  to the image service, the B2 bucket, ffmpeg and the file system, analytics and
  metrics. It drives the library's step functions and performs the actions they
  return.
- `tests/` exercises the library on concrete values.
