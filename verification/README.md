# cloud_mirror

The verified core of a Windows cloud-files sync provider. `src/` holds, with
their contracts proved by Verus, the conversions of the records that the Cloud
Filter API hands to callbacks, the operations that answer them, the creation of
placeholders, the registration of the sync root, and the decision steps of the
receive and send loops of a QUIC connection. `app/` is the program around it:
the calls into the Windows API and the socket and QUIC I/O, each driven by the
library's decisions.
