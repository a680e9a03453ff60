# external_gpu

GPU contexts and textures that are shared between a UI compositor and the code that draws into
them, verified with Verus.

- `src/token.rs`: device tokens and their recovery generations.
- `src/access.rs`: the atomic word by which samples and writes of one texture exclude each other.
- `src/stage.rs`: the atomic stage of a sample, which says who may submit it and gives it back.
- `src/reservation.rs`: sample reservations, their submissions, and write reservations.
- `src/protocol.rs`: a model of the steps on the word and the stages, and what it guarantees in
  every interleaving of them.
- `src/handle.rs`, `src/context.rs`: texture handles, owning and not, and GPU contexts.
- `src/payload.rs`: opaque payloads and non-owning references.
- `src/completion.rs`, `src/wgpu_context.rs`: the WGPU backend's side.
- `src/text.rs`: the pieces of the debug texts.
- `app/`: the process-wide identifier source, the completion thread and `Debug` output.
