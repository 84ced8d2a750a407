# open_ai_responses

Edit predictions from a service that speaks the OpenAI Responses protocol, with
every decision verified by [Verus](https://github.com/verus-lang/verus).

- `src/` is the verified library. It does no I/O: it says what is to be sent,
  how a reply is read, and which texts a predicted edit compares.
  - `settings`, `api_key`: the address of the service, and the one entity that
    holds its key.
  - `request`, `transport`: the request, and its way to the service and back.
  - `response`, `json`: the reply, and the text of the model in it.
  - `prediction`: the course of a prediction from prompt to edit.
  - `error`: what can go wrong, in words.
  - `text`: operations on text.
  - `laws`: what holds of the library as a whole.
- `app/` runs the library in an editor, which brings an HTTP client, a store of
  API keys and a buffer.
- `tests/` runs the library on examples.

One thing is trusted without proof: how a string is looked up in a JSON object
(`json::json_string_member`), which `serde_json` does.
